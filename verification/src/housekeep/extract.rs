//! `housekeep extract`: of its six modes only mode 4, rectification (a
//! constant shift of the whole signal), is implemented. The shift and the
//! scan for the extreme sample are floating-point work and are done by the
//! caller.

use vstd::prelude::*;

verus! {

/// The greeting printed ahead of a bare `housekeep extract`.
pub const GREETING: &'static str = "CDP Release 7.1 2016\n";

/// The usage text of `housekeep extract`.
pub const USAGE: &'static str = "CDP Release 7.1 2016
USAGE: housekeep extract 
       1 inf [-ggate] [-sS] [-eE] [-tT] [-hH] [-bB] [-iI] [-lL] [-wW] [-n]
OR:    2 inf outf             OR: 3 inf outf [-ggate] [-ssplice] [-b] [-e]
OR:    4 inf outf shift       OR: 5 inf outf valsfile
OR:    6 inf gate endgate threshold baktrak initlevel minsize gatewin
MODE 1) CUT OUT & KEEP SIGNIFICANT EVENTS FROM INPUT SNDFILE.
-g  GATE level (G) above which sounds accepted : Range:0-1 (default 0).
-s  SPLICE LENGTH in mS (default 15mS)
-e  END-CUTOFF level (E) below which END of sound cut.(If 0, defaults to GATE).
-t  THRESHOLD (T) If segment level never exceeds threshold,not kept(default 0)
-h  HOLD sound till S sectors BEFORE START of next segment.(default 0)
-b  KEEP B sects prior to gate-on, if level there > I (see below). Max B is 64.
-i  INITIAL level (I). Use with -b flag.
-l  Min LENGTH of events to keep (secs).
-w  GATE_WINDOW Gates off only if level < gate for W+1 sectors. (default 0).
-n  STOP if NAME of EXISTING sndfile generated. Default: ignore and continue.
MODE 2) PREVIEW: make envel as 'sound'. View to get params for CUT OUT & KEEP.
MODE 3) TOP AND TAIL: REMOVE LOW LEVEL SIGNAL FROM START & END OF SOUND.
 GATE   level ABOVE which signal accepted : (Range 0-1 : default 0).
 SPLICE length in mS (default 15mS) : -b Don't trim start : -e Don't trim end.
MODE 4) RECTIFY: SHIFT ENTIRE SIGNAL TO ELIMINATE DC DRIFT.
MODE 5) MODIFY 'BY HAND'. This process is no longer available.
MODE 6) GET ONSET TIMES:gate,end-cutoff,thresh,keep,init-lvl,minlen,gate-windw.
";

/// The modes of `housekeep extract` that are implemented.
#[derive(Debug, Clone, Copy, PartialEq, Eq, Structural)]
pub enum Mode {
    Rectify,
}

/// The mode numbered `mode` (4).
pub open spec fn mode_of(mode: u32) -> Option<Mode> {
    if mode == 4 {
        Some(Mode::Rectify)
    } else {
        None
    }
}

impl Mode {
    /// The mode numbered `mode`, or `None`.
    pub fn from_number(mode: u32) -> (r: Option<Mode>)
        ensures
            r == mode_of(mode),
    {
        match mode {
            4 => Some(Mode::Rectify),
            _ => None,
        }
    }
}

} // verus!

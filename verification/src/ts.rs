//! The names under which the segments of an HLS stream are stored.
//!
//! Whole segments are numbered from zero. The parts of the segment that is
//! being written carry its number and a part number that starts at one.

use vstd::prelude::*;
use vstd::string::StringExecFns;

use crate::text::{decimal, decimal_string};

verus! {

/// The folder in which the segments of a stream are stored.
pub open spec fn folder_of(app_name: Seq<char>, stream_name: Seq<char>) -> Seq<char> {
    "./"@ + app_name + "/"@ + stream_name
}

/// The file name of whole segment number `ts_number`.
pub open spec fn segment_name(ts_number: nat) -> Seq<char> {
    decimal(ts_number) + ".ts"@
}

/// The file name of part `pts_number` of segment number `ts_number`.
pub open spec fn part_name(ts_number: nat, pts_number: nat) -> Seq<char> {
    decimal(ts_number) + "."@ + decimal(pts_number) + ".ts"@
}

/// The naming state as a mathematical value.
pub ghost struct TsState {
    pub ts_number: nat,
    pub pts_number: nat,
    pub folder_name: Seq<char>,
}

impl TsState {
    /// The file name that the next write gets.
    pub open spec fn next_name(self, partial: bool) -> Seq<char> {
        if partial {
            part_name(self.ts_number, self.pts_number + 1)
        } else {
            segment_name(self.ts_number)
        }
    }

    /// The state after the next write: a part counts the parts up, a whole
    /// segment counts the segments up and starts the parts over.
    pub open spec fn advance(self, partial: bool) -> TsState {
        if partial {
            TsState { pts_number: self.pts_number + 1, ..self }
        } else {
            TsState { ts_number: self.ts_number + 1, pts_number: 0, ..self }
        }
    }
}

pub struct Ts {
    ts_number: u32,
    pts_number: u32,
    folder_name: String,
}

impl View for Ts {
    type V = TsState;

    closed spec fn view(&self) -> TsState {
        TsState {
            ts_number: self.ts_number as nat,
            pts_number: self.pts_number as nat,
            folder_name: self.folder_name@,
        }
    }
}

impl Ts {
    pub fn new(app_name: String, stream_name: String) -> (ts: Self)
        ensures
            ts@ == (TsState {
                ts_number: 0,
                pts_number: 0,
                folder_name: folder_of(app_name@, stream_name@),
            }),
    {
        let mut folder_name = String::from_str("./");
        folder_name.append(app_name.as_str());
        folder_name.append("/");
        folder_name.append(stream_name.as_str());
        Self { ts_number: 0, pts_number: 0, folder_name }
    }

    /// The folder in which the segments are stored.
    pub fn folder_name(&self) -> (name: &String)
        ensures
            name@ == self@.folder_name,
    {
        &self.folder_name
    }

    /// Whether the counter that the next write advances has room left.
    pub open spec fn spec_has_room(&self, partial: bool) -> bool {
        if partial {
            self@.pts_number < u32::MAX
        } else {
            self@.ts_number < u32::MAX
        }
    }

    #[verifier::when_used_as_spec(spec_has_room)]
    pub fn has_room(&self, partial: bool) -> (room: bool)
        ensures
            room == self.spec_has_room(partial),
    {
        if partial {
            self.pts_number < u32::MAX
        } else {
            self.ts_number < u32::MAX
        }
    }

    /// Names the next file and counts it. Returns the file name and the path
    /// under which the file is stored.
    pub fn write(&mut self, partial: bool) -> (names: (String, String))
        requires
            old(self).has_room(partial),
        ensures
            final(self)@ == old(self)@.advance(partial),
            names.0@ == old(self)@.next_name(partial),
            names.1@ == old(self)@.folder_name + "/"@ + old(self)@.next_name(partial),
    {
        let mut ts_file_name = decimal_string(self.ts_number);
        if partial {
            self.pts_number = self.pts_number + 1;
            ts_file_name.append(".");
            let part = decimal_string(self.pts_number);
            ts_file_name.append(part.as_str());
        } else {
            self.pts_number = 0;
            self.ts_number = self.ts_number + 1;
        }
        ts_file_name.append(".ts");
        let mut ts_file_path = self.folder_name.clone();
        ts_file_path.append("/");
        ts_file_path.append(ts_file_name.as_str());
        (ts_file_name, ts_file_path)
    }
}

} // verus!

use vstd::prelude::*;
use vstd::string::*;

verus! {

/// `IN_ACCESS` of inotify(7): the file was read.
pub const IN_ACCESS: u32 = 0x1;
/// `IN_MODIFY` of inotify(7): the file was written.
pub const IN_MODIFY: u32 = 0x2;
/// `IN_CREATE` of inotify(7): a file was created in a watched directory.
pub const IN_CREATE: u32 = 0x100;
/// `IN_DELETE` of inotify(7): a file was deleted from a watched directory.
pub const IN_DELETE: u32 = 0x200;

/// What happened to a watched file.
#[derive(Debug, Clone, Copy, PartialEq, Eq, Structural)]
pub enum FileEvent {
    Modified,
    Created,
    Deleted,
    Access,
    Other,
}

/// Whether every bit of `flag` is set in `mask`.
pub open spec fn has_flag(mask: u32, flag: u32) -> bool {
    mask & flag == flag
}

/// The kind of an inotify event with event mask `mask`. When several kinds
/// are set, modification wins over creation, creation over deletion, and
/// deletion over access.
pub open spec fn file_event_of_mask(mask: u32) -> FileEvent {
    if has_flag(mask, IN_MODIFY) {
        FileEvent::Modified
    } else if has_flag(mask, IN_CREATE) {
        FileEvent::Created
    } else if has_flag(mask, IN_DELETE) {
        FileEvent::Deleted
    } else if has_flag(mask, IN_ACCESS) {
        FileEvent::Access
    } else {
        FileEvent::Other
    }
}

impl FileEvent {
    /// Classifies an inotify event by its mask.
    pub fn from_mask(mask: u32) -> (r: FileEvent)
        ensures
            r == file_event_of_mask(mask),
    {
        if mask & IN_MODIFY == IN_MODIFY {
            FileEvent::Modified
        } else if mask & IN_CREATE == IN_CREATE {
            FileEvent::Created
        } else if mask & IN_DELETE == IN_DELETE {
            FileEvent::Deleted
        } else if mask & IN_ACCESS == IN_ACCESS {
            FileEvent::Access
        } else {
            FileEvent::Other
        }
    }
}

/// The name reported for an event: the file name when the event carries one,
/// else the empty name.
pub open spec fn event_name(name: Option<String>) -> Seq<char> {
    match name {
        Some(n) => n@,
        None => Seq::<char>::empty(),
    }
}

/// Turns inotify events, each given as its optional file name and its mask,
/// into named file events, in the same order.
pub fn file_events(raw: Vec<(Option<String>, u32)>) -> (r: Vec<(String, FileEvent)>)
    ensures
        r@.len() == raw@.len(),
        forall|i: int|
            0 <= i < raw@.len() ==> {
                &&& (#[trigger] r@[i]).0@ == event_name(raw@[i].0)
                &&& r@[i].1 == file_event_of_mask(raw@[i].1)
            },
{
    let mut out: Vec<(String, FileEvent)> = Vec::new();
    let mut i: usize = 0;
    while i < raw.len()
        invariant
            i <= raw@.len(),
            out@.len() == i,
            forall|j: int|
                0 <= j < i ==> {
                    &&& (#[trigger] out@[j]).0@ == event_name(raw@[j].0)
                    &&& out@[j].1 == file_event_of_mask(raw@[j].1)
                },
        decreases raw.len() - i,
    {
        let name = match &raw[i].0 {
            Some(n) => n.clone(),
            None => String::new(),
        };
        let kind = FileEvent::from_mask(raw[i].1);
        out.push((name, kind));
        i = i + 1;
    }
    out
}

} // verus!

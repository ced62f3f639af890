//! The result scan: a depth-first walk for the first result file under a
//! directory, and the accuracy that is the score.
use crate::error::Error;
use vstd::prelude::*;

verus! {

/// One entry of a directory listing.
#[derive(Debug, Clone)]
pub struct DirEntry {
    /// The full path of the entry.
    pub path: String,
    /// The entry's own name, its last path component.
    pub name: String,
    /// The entry is a directory.
    pub is_dir: bool,
}

/// The name has the extension `json`: it ends in `.json` after a non-empty stem.
pub open spec fn is_result_name(name: Seq<char>) -> bool {
    name.len() > 5 && name.subrange(name.len() - 5, name.len() as int) == seq![
        '.',
        'j',
        's',
        'o',
        'n',
    ]
}

/// The scan stops at this entry: it is a result file or a directory.
pub open spec fn stops_at(e: DirEntry) -> bool {
    is_result_name(e.name@) || e.is_dir
}

/// A directory whose listing the scan is going through: the entries, and the
/// position from which the scan goes on.
pub struct FrameView {
    pub entries: Seq<DirEntry>,
    pub pos: int,
}

/// `i` is the first position from `pos` on at which the scan stops.
pub open spec fn first_stop_at(entries: Seq<DirEntry>, pos: int, i: int) -> bool {
    &&& pos <= i < entries.len()
    &&& stops_at(entries[i])
    &&& forall|j: int| pos <= j < i ==> !stops_at(#[trigger] entries[j])
}

/// The first position from `pos` on at which the scan stops, if any.
pub open spec fn first_stop(entries: Seq<DirEntry>, pos: int) -> Option<int> {
    if exists|i: int| pos <= i < entries.len() && stops_at(entries[i]) {
        Some(choose|i: int| first_stop_at(entries, pos, i))
    } else {
        None
    }
}

/// One step of the depth-first scan: in the innermost directory, the next
/// entry that is a result file or a directory, the frames then left; where
/// that directory has no such entry left, the scan backs up to the one
/// around it. With no directory left there is no entry.
pub open spec fn scan_next(frames: Seq<FrameView>) -> (Seq<FrameView>, Option<DirEntry>)
    decreases frames.len(),
{
    if frames.len() == 0 {
        (frames, None)
    } else {
        let top = frames.last();
        match first_stop(top.entries, top.pos) {
            Some(i) => (
                frames.drop_last().push(FrameView { entries: top.entries, pos: i + 1 }),
                Some(top.entries[i]),
            ),
            None => scan_next(frames.drop_last()),
        }
    }
}

/// What the scan asks for next.
#[derive(Debug, Clone, PartialEq, Eq)]
pub enum ScanAction {
    /// Parse the result file at this path; the scan ends there.
    Parse(String),
    /// List the directory at this path and hand the listing to `enter`.
    Descend(String),
}

struct Frame {
    entries: Vec<DirEntry>,
    pos: usize,
}

impl Frame {
    closed spec fn view(&self) -> FrameView {
        FrameView { entries: self.entries@, pos: self.pos as int }
    }
}

/// A depth-first scan for the result file under a root directory.
pub struct ResultScan {
    root: String,
    frames: Vec<Frame>,
}

impl ResultScan {
    /// The directory that the scan started from.
    pub closed spec fn root(&self) -> Seq<char> {
        self.root@
    }

    /// The directories being gone through, outermost first.
    pub closed spec fn frames(&self) -> Seq<FrameView> {
        self.frames@.map_values(|f: Frame| f.view())
    }

    /// A scan of the directory `root`, whose listing is `listing`.
    pub fn new(root: String, listing: Vec<DirEntry>) -> (r: ResultScan)
        ensures
            r.root() == root@,
            r.frames() == seq![FrameView { entries: listing@, pos: 0 }],
    {
        let mut frames: Vec<Frame> = Vec::new();
        frames.push(Frame { entries: listing, pos: 0 });
        let r = ResultScan { root, frames };
        assert(r.frames() =~= seq![FrameView { entries: listing@, pos: 0 }]);
        r
    }

    /// Goes on into the directory that the last step descended into.
    pub fn enter(&mut self, listing: Vec<DirEntry>)
        ensures
            final(self).root() == old(self).root(),
            final(self).frames() == old(self).frames().push(FrameView { entries: listing@, pos: 0 }),
    {
        let ghost before = self.frames();
        self.frames.push(Frame { entries: listing, pos: 0 });
        assert(self.frames() =~= before.push(FrameView { entries: listing@, pos: 0 }));
    }

    /// The next step of the scan: parse the first result file met, or
    /// descend into the next directory, the innermost directories first.
    /// Where no entry is left anywhere, no result is found, and the error
    /// names the root.
    pub fn next(&mut self) -> (r: Result<ScanAction, Error>)
        ensures
            final(self).root() == old(self).root(),
            final(self).frames() == scan_next(old(self).frames()).0,
            r is Err <==> scan_next(old(self).frames()).1 is None,
            r matches Err(e) ==> e is NoResult && e->NoResult_0@ == old(self).root(),
            r matches Ok(a) ==> {
                let e = scan_next(old(self).frames()).1.unwrap();
                if is_result_name(e.name@) {
                    a is Parse && a->Parse_0@ == e.path@
                } else {
                    a is Descend && a->Descend_0@ == e.path@
                }
            },
    {
        let ghost f0 = self.frames();
        let ghost r0 = self.root@;
        while self.frames.len() > 0
            invariant
                scan_next(self.frames()) == scan_next(f0),
                self.root@ == r0,
                f0 == old(self).frames(),
                r0 == old(self).root(),
            decreases self.frames.len(),
        {
            let ghost fs = self.frames();
            assert(fs.len() == self.frames@.len());
            let top = self.frames.pop().unwrap();
            let ghost fl = top.view();
            assert(self.frames() =~= fs.drop_last());
            assert(fs.last() == fl);
            let n = top.entries.len();
            let mut i: usize = if top.pos < n {
                top.pos
            } else {
                n
            };
            while i < n
                invariant
                    n == top.entries@.len(),
                    fl == top.view(),
                    fs.len() > 0,
                    fs.last() == fl,
                    self.frames() == fs.drop_last(),
                    scan_next(fs) == scan_next(f0),
                    self.root@ == r0,
                    f0 == old(self).frames(),
                    r0 == old(self).root(),
                    i <= n,
                    top.pos <= i || i == n,
                    forall|j: int| top.pos <= j < i ==> !stops_at(#[trigger] top.entries@[j]),
                decreases n - i,
            {
                let result = is_result_file(top.entries[i].name.as_str());
                if result || top.entries[i].is_dir {
                    let path = top.entries[i].path.clone();
                    assert(first_stop_at(top.entries@, top.pos as int, i as int));
                    let ghost k = choose|k: int| first_stop_at(top.entries@, top.pos as int, k);
                    assert(k == i) by {
                        if k < i {
                            assert(!stops_at(top.entries@[k]));
                        } else if i < k {
                            assert(!stops_at(top.entries@[i as int]));
                        }
                    }
                    assert(first_stop(fl.entries, fl.pos) == Some(i as int));
                    let ghost rest = self.frames();
                    self.frames.push(Frame { entries: top.entries, pos: i + 1 });
                    assert(self.frames() =~= rest.push(FrameView { entries: fl.entries, pos: i + 1 }));
                    assert(scan_next(fs) == (
                        fs.drop_last().push(FrameView { entries: fl.entries, pos: i + 1 }),
                        Some(fl.entries[i as int]),
                    ));
                    if result {
                        return Ok(ScanAction::Parse(path));
                    } else {
                        return Ok(ScanAction::Descend(path));
                    }
                }
                i += 1;
            }
            assert(first_stop(fl.entries, fl.pos) is None) by {
                if exists|j: int| fl.pos <= j < fl.entries.len() && stops_at(fl.entries[j]) {
                    let j = choose|j: int| fl.pos <= j < fl.entries.len() && stops_at(fl.entries[j]);
                    assert(!stops_at(top.entries@[j]));
                }
            }
        }
        assert(self.frames() =~= Seq::<FrameView>::empty());
        Err(Error::NoResult(self.root.clone()))
    }
}

/// Tells whether a file name has the extension `json`.
pub fn is_result_file(name: &str) -> (r: bool)
    ensures
        r == is_result_name(name@),
{
    let n = name.unicode_len();
    if n <= 5 {
        return false;
    }
    let r = name.get_char(n - 5) == '.' && name.get_char(n - 4) == 'j' && name.get_char(n - 3)
        == 's' && name.get_char(n - 2) == 'o' && name.get_char(n - 1) == 'n';
    let ghost tail = name@.subrange(n - 5, n as int);
    assert(r ==> tail =~= seq!['.', 'j', 's', 'o', 'n']);
    assert(tail == seq!['.', 'j', 's', 'o', 'n'] ==> r) by {
        if tail == seq!['.', 'j', 's', 'o', 'n'] {
            assert(tail[0] == name@[n - 5]);
            assert(tail[1] == name@[n - 4]);
            assert(tail[2] == name@[n - 3]);
            assert(tail[3] == name@[n - 2]);
            assert(tail[4] == name@[n - 1]);
        }
    }
    r
}

/// The score of a result: its last accuracy. A result without accuracies
/// gives none.
pub fn last_accuracy<T: Copy>(accuracies: &Vec<T>) -> (r: Result<T, Error>)
    ensures
        r is Ok <==> accuracies@.len() > 0,
        r matches Ok(x) ==> x == accuracies@.last(),
        r is Err ==> r == Err::<T, Error>(Error::EmptyAccuracies),
{
    if accuracies.len() == 0 {
        Err(Error::EmptyAccuracies)
    } else {
        Ok(accuracies[accuracies.len() - 1])
    }
}

} // verus!

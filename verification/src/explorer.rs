//! The browser's one piece of state: the current directory. The path is
//! held as its segments in order, the filesystem root being the empty
//! sequence, and is rendered with a `/` before each segment.

use vstd::prelude::*;
use vstd::string::*;

verus! {

/// The segments of a `Vec<String>` path, seen as sequences of characters.
pub open spec fn segments_view(v: Seq<String>) -> Seq<Seq<char>> {
    Seq::new(v.len(), |i: int| v[i]@)
}

/// The path's text without the root special case: one `/` before each
/// segment, so the empty path renders as the empty text.
pub open spec fn path_chars(segs: Seq<Seq<char>>) -> Seq<char>
    decreases segs.len(),
{
    if segs.len() == 0 {
        Seq::empty()
    } else {
        path_chars(segs.drop_last()) + seq!['/'] + segs.last()
    }
}

/// The path as shown to the user: `/` for the root, otherwise a `/`
/// before each segment.
pub open spec fn path_display(segs: Seq<Seq<char>>) -> Seq<char> {
    if segs.len() == 0 {
        seq!['/']
    } else {
        path_chars(segs)
    }
}

/// Where a user-entered name points: the current directory itself when
/// the name is empty, otherwise the name appended as one more segment.
pub open spec fn join_display(segs: Seq<Seq<char>>, name: Seq<char>) -> Seq<char> {
    if name.len() == 0 {
        path_display(segs)
    } else {
        path_display(segs.push(name))
    }
}

/// Appending a directory name to the path; an empty name leaves the
/// path unchanged.
pub open spec fn push_segment_spec(segs: Seq<Seq<char>>, name: Seq<char>) -> Seq<Seq<char>> {
    if name.len() == 0 {
        segs
    } else {
        segs.push(name)
    }
}

/// One step towards the root: the parent directory, or the root itself,
/// which is its own parent.
pub open spec fn parent_path(segs: Seq<Seq<char>>) -> Seq<Seq<char>> {
    if segs.len() == 0 {
        segs
    } else {
        segs.drop_last()
    }
}

/// `n` repeated steps towards the root.
pub open spec fn ascend(segs: Seq<Seq<char>>, n: nat) -> Seq<Seq<char>>
    decreases n,
{
    if n == 0 {
        segs
    } else {
        parent_path(ascend(segs, (n - 1) as nat))
    }
}

/// Each step towards the root removes one segment until none is left.
pub proof fn lemma_ascend_len(segs: Seq<Seq<char>>, n: nat)
    ensures
        ascend(segs, n).len() == if n <= segs.len() { segs.len() - n } else { 0int },
    decreases n,
{
    if n > 0 {
        lemma_ascend_len(segs, (n - 1) as nat);
    }
}

/// Navigating up again and again reaches the root after at most as many
/// steps as the path has segments, and from then on every further step
/// leaves the path where it is: the root is a fixed point.
pub proof fn lemma_navigate_up_reaches_root(segs: Seq<Seq<char>>, n: nat)
    requires
        n >= segs.len(),
    ensures
        ascend(segs, n).len() == 0,
        parent_path(ascend(segs, n)) == ascend(segs, n),
{
    lemma_ascend_len(segs, n);
}

pub struct FileExplorer {
    pub current_path: Vec<String>,
}

impl View for FileExplorer {
    type V = Seq<Seq<char>>;

    open spec fn view(&self) -> Seq<Seq<char>> {
        segments_view(self.current_path@)
    }
}

impl FileExplorer {
    /// Every segment names one real path component, so none is empty.
    pub open spec fn wf(&self) -> bool {
        forall|i: int| 0 <= i < self@.len() ==> self@[i].len() > 0
    }

    /// A browser positioned at the directory the given segments name;
    /// the caller supplies the starting directory's segments in order,
    /// root first.
    pub fn new(initial_segments: Vec<String>) -> (r: FileExplorer)
        requires
            forall|i: int| 0 <= i < initial_segments@.len() ==> initial_segments@[i]@.len() > 0,
        ensures
            r@ == segments_view(initial_segments@),
            r.wf(),
    {
        FileExplorer { current_path: initial_segments }
    }

    /// The current path's text without the root special case.
    fn render_segments(&self) -> (r: String)
        ensures
            r@ == path_chars(self@),
    {
        let mut out = String::new();
        let mut i: usize = 0;
        proof {
            assert(self@.subrange(0, 0) =~= Seq::<Seq<char>>::empty());
        }
        while i < self.current_path.len()
            invariant
                i <= self.current_path.len(),
                out@ == path_chars(self@.subrange(0, i as int)),
            decreases self.current_path.len() - i,
        {
            proof {
                reveal_strlit("/");
                assert("/"@ =~= seq!['/']);
            }
            out.append("/");
            out.append(self.current_path[i].as_str());
            i = i + 1;
            proof {
                assert(self@.subrange(0, i as int).drop_last() =~= self@.subrange(0, i - 1));
                assert(self@.subrange(0, i as int).last() == self@[i - 1]);
            }
        }
        proof {
            assert(self@.subrange(0, self.current_path.len() as int) =~= self@);
        }
        out
    }

    /// The current directory as the user sees it.
    pub fn get_current_directory(&self) -> (r: String)
        ensures
            r@ == path_display(self@),
    {
        if self.current_path.len() == 0 {
            proof {
                reveal_strlit("/");
                assert("/"@ =~= seq!['/']);
            }
            String::from_str("/")
        } else {
            self.render_segments()
        }
    }

    /// The full path a user-entered file or directory name points to,
    /// resolved against the current directory.
    pub fn resolve(&self, name: &String) -> (r: String)
        ensures
            r@ == join_display(self@, name@),
    {
        if name.as_str().is_empty() {
            self.get_current_directory()
        } else {
            let mut out = self.render_segments();
            proof {
                reveal_strlit("/");
                assert("/"@ =~= seq!['/']);
            }
            out.append("/");
            out.append(name.as_str());
            proof {
                assert(self@.push(name@).drop_last() =~= self@);
                assert(self@.push(name@).last() == name@);
                assert(self@.push(name@).len() > 0);
            }
            out
        }
    }

    /// Entering a directory: the entered name becomes one more segment
    /// of the current path; an empty name changes nothing. Whether the
    /// directory exists is not checked here, as the next listing will
    /// fail on a path that does not.
    pub fn change_directory(&mut self, name: String)
        ensures
            final(self)@ == push_segment_spec(old(self)@, name@),
            old(self).wf() ==> final(self).wf(),
    {
        if !name.as_str().is_empty() {
            let ghost before: Seq<String> = self.current_path@;
            let ghost entered: String = name;
            self.current_path.push(name);
            proof {
                assert(segments_view(before.push(entered))
                    =~= segments_view(before).push(entered@));
            }
        }
    }

    /// One step up: to the parent directory when there is one, reported
    /// with the new path; at the root the path stays and the report says
    /// so.
    pub fn navigate_up(&mut self) -> (msg: String)
        ensures
            final(self)@ == parent_path(old(self)@),
            old(self)@.len() == 0 ==> msg@ == "Already at the root directory."@,
            old(self)@.len() > 0 ==> msg@ == "Navigated up to: \""@ + path_display(final(self)@)
                + "\""@,
            old(self).wf() ==> final(self).wf(),
    {
        if self.current_path.len() == 0 {
            String::from_str("Already at the root directory.")
        } else {
            let ghost before: Seq<String> = self.current_path@;
            self.current_path.pop();
            proof {
                assert(segments_view(before.drop_last()) =~= segments_view(before).drop_last());
            }
            let mut msg = String::from_str("Navigated up to: \"");
            msg.append(self.get_current_directory().as_str());
            msg.append("\"");
            msg
        }
    }
}

} // verus!

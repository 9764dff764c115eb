//! Version-control provenance: the shape of the fragment the report's VCS
//! addon renders, and the required/optional rule for it.
//!
//! Reading the repository itself is a caller's concern; this module renders
//! the fragment from the plain values the caller extracted.

use vstd::prelude::*;

use crate::processor::spec_strings;

verus! {

/// Where to find the repository, and whether its absence is fatal.
#[derive(Debug)]
pub struct GitInfo {
    path: String,
    required: bool,
}

impl GitInfo {
    /// The repository's location.
    pub closed spec fn spec_path(&self) -> Seq<char> {
        self.path@
    }

    /// Whether missing VCS data fails the report.
    pub closed spec fn spec_required(&self) -> bool {
        self.required
    }

    /// Remembers where the repository lives and whether it is required.
    pub fn new(path: &str, required: bool) -> (r: GitInfo)
        ensures
            r.spec_path() == path@,
            r.spec_required() == required,
    {
        GitInfo { path: String::from_str(path), required }
    }

    /// The repository's location.
    pub fn path(&self) -> (r: &str)
        ensures
            r@ == self.spec_path(),
    {
        self.path.as_str()
    }

    /// Whether missing VCS data fails the report.
    pub fn required(&self) -> (r: bool)
        ensures
            r == self.spec_required(),
    {
        self.required
    }

    /// Applies the required/optional rule to the outcome of reading the
    /// repository: a failure is passed on only when the data is required;
    /// otherwise it is swallowed and the fragment is empty.
    pub fn resolve(&self, rendered: Result<String, String>) -> (r: Result<String, String>)
        ensures
            match rendered {
                Ok(f) => r matches Ok(g) && g@ == f@,
                Err(e) => if self.spec_required() {
                    r matches Err(g) && g@ == e@
                } else {
                    r matches Ok(g) && g@ == Seq::<char>::empty()
                },
            },
    {
        match rendered {
            Ok(f) => Ok(f),
            Err(e) => if self.required {
                Err(e)
            } else {
                Ok(String::new())
            },
        }
    }
}

/// The fragment's head: the remote's URL and the checked-out reference,
/// followed by a blank line.
pub open spec fn spec_git_header(url: Seq<char>, refname: Seq<char>) -> Seq<char> {
    "**Git:** `"@ + url + "` @ `"@ + refname + "`\n"@ + "\n"@
}

/// Renders the fragment's head line.
pub fn git_header(url: &str, refname: &str) -> (r: String)
    ensures
        r@ == spec_git_header(url@, refname@),
{
    let mut s = String::from_str("**Git:** `");
    s.append(url);
    s.append("` @ `");
    s.append(refname);
    s.append("`\n");
    s.append("\n");
    proof {
        assert(s@ =~= spec_git_header(url@, refname@));
    }
    s
}

/// The commit message's lines, each indented by eight spaces.
pub open spec fn spec_commit_lines(lines: Seq<Seq<char>>) -> Seq<char>
    decreases lines.len(),
{
    if lines.len() == 0 {
        Seq::empty()
    } else {
        spec_commit_lines(lines.drop_last()) + "        "@ + lines.last() + "\n"@
    }
}

/// The block describing the latest commit: identifier, author and date,
/// then a blank line and the message, indented.
pub open spec fn spec_commit_fragment(
    id: Seq<char>,
    author: Seq<char>,
    date: Seq<char>,
    message_lines: Seq<Seq<char>>,
) -> Seq<char> {
    "    Commit: "@ + id + "\n"@ + "    Author: "@ + author + "\n"@ + "    Date: "@ + date + "\n"@
        + "\n"@ + spec_commit_lines(message_lines)
}

/// Renders the block describing the latest commit.
#[verifier::loop_isolation(false)]
pub fn commit_fragment(id: &str, author: &str, date: &str, message_lines: &Vec<String>) -> (r:
    String)
    ensures
        r@ == spec_commit_fragment(id@, author@, date@, spec_strings(message_lines@)),
{
    let mut s = String::from_str("    Commit: ");
    s.append(id);
    s.append("\n");
    s.append("    Author: ");
    s.append(author);
    s.append("\n");
    s.append("    Date: ");
    s.append(date);
    s.append("\n");
    s.append("\n");
    let ghost head = s@;
    let ghost line_views = spec_strings(message_lines@);
    let mut i: usize = 0;
    proof {
        assert(spec_commit_lines(line_views.take(0)) =~= Seq::<char>::empty());
        assert(s@ =~= head + spec_commit_lines(line_views.take(0)));
    }
    while i < message_lines.len()
        invariant
            i <= message_lines@.len(),
            s@ == head + spec_commit_lines(line_views.take(i as int)),
        decreases message_lines@.len() - i,
    {
        s.append("        ");
        s.append(message_lines[i].as_str());
        s.append("\n");
        proof {
            assert(line_views.take(i as int + 1).drop_last() =~= line_views.take(i as int));
            assert(line_views[i as int] == message_lines@[i as int]@);
            assert(s@ =~= head + spec_commit_lines(line_views.take(i as int + 1)));
        }
        i = i + 1;
    }
    proof {
        assert(line_views.take(i as int) =~= line_views);
        assert(s@ =~= spec_commit_fragment(id@, author@, date@, line_views));
    }
    s
}

} // verus!

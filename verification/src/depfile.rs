//! Dependency files for the build: which `Cargo.toml` files a target
//! depends on, in the form that `make` reads.

use vstd::prelude::*;
use vstd::string::StringExecFns;

verus! {

/// The pattern that finds the manifest of the workspace member `member`.
pub open spec fn manifest_pattern_spec(member: Seq<char>) -> Seq<char> {
    member + "/Cargo.toml"@
}

/// The rule that makes `target` depend on `files`: the target, a colon, and
/// each file after a space.
pub open spec fn dependency_line_spec(target: Seq<char>, files: Seq<Seq<char>>) -> Seq<char>
    decreases files.len(),
{
    if files.len() == 0 {
        target + ":"@
    } else {
        dependency_line_spec(target, files.drop_last()) + " "@ + files.last()
    }
}

/// The names in `files`, as sequences of characters.
pub open spec fn names(files: Seq<String>) -> Seq<Seq<char>> {
    files.map_values(|file: String| file@)
}

/// Returns the pattern that finds the manifest of the workspace member
/// `member`.
pub fn manifest_pattern(member: &str) -> (pattern: String)
    ensures
        pattern@ == manifest_pattern_spec(member@),
{
    String::from_str(member).concat("/Cargo.toml")
}

/// Returns the rule that makes `target` depend on `files`.
pub fn dependency_line(target: &str, files: &Vec<String>) -> (line: String)
    ensures
        line@ == dependency_line_spec(target@, names(files@)),
{
    let mut line = String::from_str(target).concat(":");
    proof {
        assert(names(files@).take(0).len() == 0);
    }
    let mut i: usize = 0;
    while i < files.len()
        invariant
            i <= files.len(),
            line@ == dependency_line_spec(target@, names(files@).take(i as int)),
        decreases files.len() - i,
    {
        line.append(" ");
        line.append(files[i].as_str());
        proof {
            let upto = names(files@).take(i + 1);
            assert(upto.drop_last() =~= names(files@).take(i as int));
            assert(upto.last() == files@[i as int]@);
        }
        i += 1;
    }
    proof {
        assert(names(files@).take(files.len() as int) =~= names(files@));
    }
    line
}

} // verus!

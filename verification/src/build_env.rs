//! Computations of a build script's output names. Reading the build
//! environment is a front-end concern; these functions take the
//! environment's values as arguments.

use vstd::prelude::*;

use crate::text::str_eq;

verus! {

/// The characters of `s` with every `-` replaced by `_`.
pub open spec fn underscored(s: Seq<char>) -> Seq<char> {
    Seq::new(
        s.len(),
        |i: int|
            if s[i] == '-' {
                '_'
            } else {
                s[i]
            },
    )
}

fn replace_dashes(s: &str) -> (r: String)
    ensures
        r@ == underscored(s@),
{
    let n = s.unicode_len();
    let mut acc = String::new();
    let mut i: usize = 0;
    while i < n
        invariant
            i <= n,
            n == s@.len(),
            acc@ =~= underscored(s@).take(i as int),
        decreases n - i,
    {
        let c = s.get_char(i);
        if c == '-' {
            acc.append("_");
            proof {
                reveal_strlit("_");
            }
        } else {
            let piece = s.substring_char(i, i + 1);
            acc.append(piece);
        }
        proof {
            assert(acc@ =~= underscored(s@).take(i + 1));
        }
        i = i + 1;
    }
    proof {
        assert(underscored(s@).take(n as int) =~= underscored(s@));
    }
    acc
}

/// The file name of the built library: a `lib` prefix everywhere but on
/// windows, then the package name with dashes replaced by underscores.
pub fn target_file_name(target_os: &str, package_name: &str) -> (r: String)
    ensures
        target_os@ == "windows"@ ==> r@ == underscored(package_name@),
        target_os@ != "windows"@ ==> r@ == "lib"@ + underscored(package_name@),
{
    let replaced = replace_dashes(package_name);
    if str_eq(target_os, "windows") {
        replaced
    } else {
        let mut name = String::from_str("lib");
        name.append(replaced.as_str());
        name
    }
}

/// The path of a file that sits beside the built library: the target
/// directory, a separator, then the library's file name with the given
/// suffix.
pub fn beside_file_path(target_dir: &str, file_name: &str, suffix: &str) -> (r: String)
    ensures
        r@ == target_dir@ + seq!['/'] + file_name@ + suffix@,
{
    let mut path = String::from_str(target_dir);
    path.append("/");
    path.append(file_name);
    path.append(suffix);
    proof {
        reveal_strlit("/");
        assert(path@ =~= target_dir@ + seq!['/'] + file_name@ + suffix@);
    }
    path
}

} // verus!

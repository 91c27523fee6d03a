use vstd::prelude::*;

verus! {

/// A path `base` extended with the component `name`, using a single
/// separator character. An empty base contributes nothing, so the
/// result stays a relative path rather than gaining a leading
/// separator.
pub open spec fn spec_join(base: Seq<char>, name: Seq<char>) -> Seq<char> {
    if base.len() == 0 {
        name
    } else {
        base + seq!['/'] + name
    }
}

/// Joins a directory path and a child name with a separator.
pub fn path_join(base: &str, name: &str) -> (r: String)
    ensures
        r@ == spec_join(base@, name@),
{
    if base.is_empty() {
        String::from_str(name)
    } else {
        let mut s = String::from_str(base);
        s.append("/");
        s.append(name);
        proof {
            reveal_strlit("/");
            assert(("/")@ =~= seq!['/']);
        }
        s
    }
}

} // verus!

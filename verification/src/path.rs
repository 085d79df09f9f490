//! Joining Unix paths held as text.
use vstd::prelude::*;

verus! {

/// `component` joined onto the Unix path `base`, as `Path::join` does on Unix: an
/// absolute component replaces the base; otherwise a `/` is put between the two unless
/// the base is empty or already ends in one.
pub open spec fn path_join(base: Seq<char>, component: Seq<char>) -> Seq<char> {
    if component.len() > 0 && component[0] == '/' {
        component
    } else if base.len() == 0 || base.last() == '/' {
        base + component
    } else {
        base + seq!['/'] + component
    }
}

/// Joins `component` onto the Unix path `base`.
pub fn join_path(base: &str, component: &str) -> (res: String)
    ensures
        res@ == path_join(base@, component@),
{
    let clen = component.unicode_len();
    if clen > 0 && component.get_char(0) == '/' {
        return String::from_str(component);
    }
    let blen = base.unicode_len();
    if blen == 0 || base.get_char(blen - 1) == '/' {
        String::from_str(base).concat(component)
    } else {
        proof {
            reveal_strlit("/");
        }
        String::from_str(base).concat("/").concat(component)
    }
}

/// Joining keeps the component whole at the end; an absolute component is the whole
/// result; a relative one follows the whole base, with exactly one `/` put between
/// them when the base is non-empty and does not already end in `/`, and nothing put
/// between them otherwise.
pub proof fn law_path_join_parts(base: Seq<char>, component: Seq<char>)
    ensures
        ({
            let j = path_join(base, component);
            let absolute = component.len() > 0 && component[0] == '/';
            let needs_sep = base.len() > 0 && base[base.len() - 1] != '/';
            &&& j.len() >= component.len()
            &&& j.subrange(j.len() - component.len(), j.len() as int) == component
            &&& absolute ==> j == component
            &&& !absolute ==> j.subrange(0, base.len() as int) == base
            &&& (!absolute && needs_sep) ==> (j.len() == base.len() + 1 + component.len()
                && j[base.len() as int] == '/')
            &&& (!absolute && !needs_sep) ==> j.len() == base.len() + component.len()
        }),
{
    let j = path_join(base, component);
    assert(j.subrange(j.len() - component.len(), j.len() as int) =~= component);
    if !(component.len() > 0 && component[0] == '/') {
        assert(j.subrange(0, base.len() as int) =~= base);
    }
}

} // verus!

use vstd::prelude::*;
use crate::varbag::VarBag;

verus! {

/// First position `k >= j` where `t` holds the closing token `}}`, or -1.
pub open spec fn close_from(t: Seq<char>, j: int) -> int
    decreases t.len() - j,
{
    if j < 0 || j + 1 >= t.len() {
        -1
    } else if t[j] == '}' && t[j + 1] == '}' {
        j
    } else {
        close_from(t, j + 1)
    }
}

/// `t` holds the opening token `{{` at position `i`.
pub open spec fn opens_at(t: Seq<char>, i: int) -> bool {
    0 <= i && i + 1 < t.len() && t[i] == '{' && t[i + 1] == '{'
}

/// The name between the `{{` at `i` and the first `}}` after it.
pub open spec fn token_at(t: Seq<char>, i: int) -> Seq<char> {
    t.subrange(i + 2, close_from(t, i + 2))
}

/// At position `i`, `t` holds `{{name}}` with `name` bound in `bag`.
pub open spec fn replaces_at(t: Seq<char>, bag: Map<Seq<char>, Seq<char>>, i: int) -> bool {
    &&& opens_at(t, i)
    &&& i + 2 <= close_from(t, i + 2) < t.len() - 1
    &&& bag.contains_key(token_at(t, i))
}

/// The substituted text of `t` from position `i` on: each `{{name}}` whose
/// `name` is bound in `bag` becomes its value, everything else is kept as it
/// is. Values are not scanned again.
pub open spec fn subst_from(t: Seq<char>, bag: Map<Seq<char>, Seq<char>>, i: int) -> Seq<char>
    decreases t.len() - i,
{
    if i < 0 || i >= t.len() {
        Seq::empty()
    } else if replaces_at(t, bag, i) {
        bag[token_at(t, i)] + subst_from(t, bag, close_from(t, i + 2) + 2)
    } else {
        seq![t[i]] + subst_from(t, bag, i + 1)
    }
}

/// The whole of `t`, substituted with the bindings of `bag`.
pub open spec fn subst(t: Seq<char>, bag: Map<Seq<char>, Seq<char>>) -> Seq<char> {
    subst_from(t, bag, 0)
}

/// Finds the first `}}` of `t` at or after `j`.
fn find_close(t: &str, n: usize, j: usize) -> (r: Option<usize>)
    requires
        n == t@.len(),
    ensures
        r is None ==> close_from(t@, j as int) == -1,
        r matches Some(c) ==> c == close_from(t@, j as int) && j <= c && c + 1 < n,
{
    let mut k: usize = j;
    while k < n && k + 1 < n
        invariant
            n == t@.len(),
            j <= k,
            close_from(t@, j as int) == close_from(t@, k as int),
        decreases n - k,
    {
        if t.get_char(k) == '}' && t.get_char(k + 1) == '}' {
            return Some(k);
        }
        k = k + 1;
    }
    None
}

/// Replaces each `{{name}}` of `template` whose `name` is bound in `bag` by
/// its value, in a single pass. Unbound tokens stay verbatim.
pub fn substitute(template: &str, bag: &VarBag) -> (r: String)
    requires
        bag.wf(),
    ensures
        r@ == subst(template@, bag@),
{
    let n = template.unicode_len();
    let mut out = String::new();
    let mut i: usize = 0;
    while i < n
        invariant
            n == template@.len(),
            bag.wf(),
            i <= n,
            out@ + subst_from(template@, bag@, i as int) == subst(template@, bag@),
        decreases n - i,
    {
        let ghost t = template@;
        let mut replaced = false;
        if i + 1 < n && template.get_char(i) == '{' && template.get_char(i + 1) == '{' {
            if let Some(c) = find_close(template, n, i + 2) {
                if let Some(v) = bag.get_chars(template, i + 2, c) {
                    out.append(v.as_str());
                    proof {
                        assert(replaces_at(t, bag@, i as int));
                        assert(out@ + subst_from(t, bag@, c + 2) == subst(t, bag@));
                    }
                    i = c + 2;
                    replaced = true;
                }
            }
        }
        if !replaced {
            proof {
                assert(!replaces_at(t, bag@, i as int));
            }
            out.append(template.substring_char(i, i + 1));
            proof {
                assert(template@.subrange(i as int, i + 1) =~= seq![t[i as int]]);
                assert(out@ + subst_from(t, bag@, i + 1) =~= subst(t, bag@));
            }
            i = i + 1;
        }
    }
    assert(out@ =~= subst(template@, bag@));
    out
}

} // verus!

//! Decisions taken on what the system reports: the theme, the whitelist of
//! applications during which no break starts, and the list of running
//! applications offered for that whitelist.
use vstd::prelude::*;
use crate::settings::texts;
use crate::text::{chars_of, lowercase, to_lowercase};

verus! {

broadcast use vstd::string::group_string_axioms;

/// Whether the system uses the dark theme, from the `AppsUseLightTheme` value
/// of the personalisation key (`None` when the key or value is missing, which
/// counts as light): dark exactly when the value is 0.
pub fn theme_is_dark(apps_use_light_theme: Option<u32>) -> (r: bool)
    ensures
        r == (apps_use_light_theme == Some(0u32)),
{
    match apps_use_light_theme {
        Some(v) => v == 0,
        None => false,
    }
}

/// The preferred application mode that themes the tray menu: 2 forces dark,
/// 3 forces light.
pub fn preferred_app_mode(is_dark: bool) -> (r: i32)
    ensures
        r == (if is_dark { 2i32 } else { 3i32 }),
{
    if is_dark { 2 } else { 3 }
}

/// The value of the immersive dark mode window attribute: 1 for dark, 0 for
/// light.
pub fn immersive_dark_value(is_dark: bool) -> (r: i32)
    ensures
        r == (if is_dark { 1i32 } else { 0i32 }),
{
    if is_dark { 1 } else { 0 }
}

/// Whether a process name is whitelisted: some entry equals it when both are
/// put in lowercase.
pub open spec fn whitelisted(whitelist: Seq<Seq<char>>, process: Seq<char>) -> bool {
    exists|i: int| 0 <= i < whitelist.len() && lowercase(#[trigger] whitelist[i]) == lowercase(process)
}

/// Whether the process in the foreground is on the whitelist, comparing
/// names without regard to case.
pub fn is_whitelisted(whitelist: &Vec<String>, process: &str) -> (r: bool)
    ensures
        r == whitelisted(texts(whitelist@), process@),
{
    let target = to_lowercase(process);
    let mut i: usize = 0;
    while i < whitelist.len()
        invariant
            i <= whitelist.len(),
            target@ == lowercase(process@),
            forall|j: int| 0 <= j < i ==> lowercase(#[trigger] texts(whitelist@)[j]) != lowercase(process@),
        decreases whitelist.len() - i,
    {
        let entry = to_lowercase(whitelist[i].as_str());
        if entry == target {
            assert(texts(whitelist@)[i as int] == whitelist@[i as int]@);
            return true;
        }
        assert(texts(whitelist@)[i as int] == whitelist@[i as int]@);
        i = i + 1;
    }
    false
}

/// Whether `a` comes strictly before `b` in lexicographic order of code
/// points (which is also the byte order of their UTF-8 encodings).
pub open spec fn text_lt(a: Seq<char>, b: Seq<char>) -> bool
    decreases a.len(),
{
    if a.len() == 0 {
        b.len() > 0
    } else if b.len() == 0 {
        false
    } else if a[0] != b[0] {
        (a[0] as u32) < (b[0] as u32)
    } else {
        text_lt(a.drop_first(), b.drop_first())
    }
}

/// Whether texts are in strictly increasing order (so none occurs twice).
pub open spec fn strictly_sorted(s: Seq<Seq<char>>) -> bool {
    forall|i: int, j: int| 0 <= i < j < s.len() ==> text_lt(#[trigger] s[i], #[trigger] s[j])
}

/// No text comes before itself.
pub proof fn lemma_text_lt_irreflexive(a: Seq<char>)
    ensures
        !text_lt(a, a),
    decreases a.len(),
{
    if a.len() > 0 {
        lemma_text_lt_irreflexive(a.drop_first());
    }
}

/// Of two different texts, one comes before the other, and not both ways.
pub proof fn lemma_text_lt_total(a: Seq<char>, b: Seq<char>)
    ensures
        a != b ==> text_lt(a, b) || text_lt(b, a),
        !(text_lt(a, b) && text_lt(b, a)),
    decreases a.len(),
{
    if a.len() > 0 && b.len() > 0 {
        lemma_text_lt_total(a.drop_first(), b.drop_first());
        if a[0] == b[0] && a != b {
            assert(a =~= seq![a[0]] + a.drop_first());
            assert(b =~= seq![b[0]] + b.drop_first());
        }
        if a[0] != b[0] {
            vstd::utf8::char_u32_cast(a[0], a[0] as u32);
            vstd::utf8::char_u32_cast(b[0], b[0] as u32);
        }
    } else if a.len() == 0 && b.len() == 0 {
        assert(a =~= b);
    }
}

/// The order is transitive.
pub proof fn lemma_text_lt_transitive(a: Seq<char>, b: Seq<char>, c: Seq<char>)
    requires
        text_lt(a, b),
        text_lt(b, c),
    ensures
        text_lt(a, c),
    decreases a.len(),
{
    if a.len() > 0 && b.len() > 0 && c.len() > 0 && a[0] == b[0] && b[0] == c[0] {
        lemma_text_lt_transitive(a.drop_first(), b.drop_first(), c.drop_first());
    }
}

/// Whether `a` comes strictly before `b`.
fn chars_lt(a: &Vec<char>, b: &Vec<char>) -> (r: bool)
    ensures
        r == text_lt(a@, b@),
{
    let mut i: usize = 0;
    assert(a@.skip(0) =~= a@);
    assert(b@.skip(0) =~= b@);
    while i < a.len() && i < b.len() && a[i] == b[i]
        invariant
            i <= a.len(),
            i <= b.len(),
            text_lt(a@, b@) == text_lt(a@.skip(i as int), b@.skip(i as int)),
        decreases a.len() - i,
    {
        proof {
            assert(a@.skip(i as int).drop_first() =~= a@.skip(i + 1));
            assert(b@.skip(i as int).drop_first() =~= b@.skip(i + 1));
        }
        i = i + 1;
    }
    if i == a.len() {
        i < b.len()
    } else if i == b.len() {
        false
    } else {
        (a[i] as u32) < (b[i] as u32)
    }
}

/// Whether two character vectors are equal.
fn chars_eq(a: &Vec<char>, b: &Vec<char>) -> (r: bool)
    ensures
        r == (a@ == b@),
{
    if a.len() != b.len() {
        return false;
    }
    let mut i: usize = 0;
    while i < a.len()
        invariant
            i <= a.len() == b.len(),
            forall|j: int| 0 <= j < i ==> a@[j] == b@[j],
        decreases a.len() - i,
    {
        if a[i] != b[i] {
            return false;
        }
        i = i + 1;
    }
    assert(a@ =~= b@);
    true
}

/// The application names in increasing order, each once: the list offered
/// for the whitelist.
pub fn sorted_unique(names: Vec<String>) -> (r: Vec<String>)
    ensures
        strictly_sorted(texts(r@)),
        forall|t: Seq<char>| texts(r@).contains(t) <==> texts(names@).contains(t),
{
    let mut out: Vec<String> = Vec::new();
    let mut keys: Vec<Vec<char>> = Vec::new();
    let mut n: usize = 0;
    while n < names.len()
        invariant
            n <= names.len(),
            out@.len() == keys@.len(),
            forall|k: int| 0 <= k < keys@.len() ==> #[trigger] keys@[k]@ == texts(out@)[k],
            strictly_sorted(texts(out@)),
            forall|t: Seq<char>| texts(out@).contains(t) <==> texts(names@.subrange(0, n as int)).contains(t),
        decreases names.len() - n,
    {
        let name = &names[n];
        let key = chars_of(name.as_str());
        let ghost before = texts(out@);
        let mut p: usize = 0;
        while p < keys.len() && chars_lt(&keys[p], &key)
            invariant
                p <= keys@.len(),
                out@.len() == keys@.len(),
                forall|k: int| 0 <= k < keys@.len() ==> #[trigger] keys@[k]@ == texts(out@)[k],
                forall|k: int| 0 <= k < p ==> text_lt(#[trigger] texts(out@)[k], key@),
            decreases keys.len() - p,
        {
            p = p + 1;
        }
        let present = p < keys.len() && chars_eq(&keys[p], &key);
        proof {
            assert(names@.subrange(0, n + 1) =~= names@.subrange(0, n as int).push(names@[n as int]));
            assert(texts(names@.subrange(0, n + 1)) =~= texts(names@.subrange(0, n as int)).push(name@));
            let prev = texts(names@.subrange(0, n as int));
            assert forall|t: Seq<char>| prev.push(name@).contains(t) <==> prev.contains(t) || t == name@ by {
                if prev.push(name@).contains(t) {
                    let k = choose|k: int| 0 <= k < prev.len() + 1 && prev.push(name@)[k] == t;
                    if k < prev.len() {
                        assert(prev[k] == t);
                    }
                }
                if prev.contains(t) {
                    let k = choose|k: int| 0 <= k < prev.len() && prev[k] == t;
                    assert(prev.push(name@)[k] == t);
                }
                if t == name@ {
                    assert(prev.push(name@)[prev.len() as int] == t);
                }
            }
        }
        if !present {
            proof {
                if p < keys@.len() {
                    lemma_text_lt_total(keys@[p as int]@, key@);
                }
            }
            out.insert(p, name.clone());
            keys.insert(p, key);
            proof {
                let after = texts(out@);
                assert(after =~= before.insert(p as int, name@));
                assert forall|i: int, j: int| 0 <= i < j < after.len() implies text_lt(
                    #[trigger] after[i],
                    #[trigger] after[j],
                ) by {
                    if i < p && j == p {
                    } else if i < p && j > p {
                        assert(text_lt(before[i], key@));
                        if j - 1 > p {
                            assert(text_lt(before[p as int], before[j - 1]));
                            lemma_text_lt_transitive(key@, before[p as int], before[j - 1]);
                        }
                        lemma_text_lt_transitive(before[i], key@, before[j - 1]);
                    } else if i == p {
                        if j - 1 > p {
                            assert(text_lt(before[p as int], before[j - 1]));
                            lemma_text_lt_transitive(key@, before[p as int], before[j - 1]);
                        }
                    } else if i > p {
                        assert(text_lt(before[i - 1], before[j - 1]));
                    } else {
                        assert(text_lt(before[i], before[j]));
                    }
                }
                assert forall|t: Seq<char>| after.contains(t) <==> before.contains(t) || t == name@ by {
                    if after.contains(t) {
                        let k = choose|k: int| 0 <= k < after.len() && after[k] == t;
                        if k < p {
                            assert(before[k] == t);
                        } else if k > p {
                            assert(before[k - 1] == t);
                        }
                    }
                    if before.contains(t) {
                        let k = choose|k: int| 0 <= k < before.len() && before[k] == t;
                        if k < p {
                            assert(after[k] == t);
                        } else {
                            assert(after[k + 1] == t);
                        }
                    }
                    if t == name@ {
                        assert(after[p as int] == t);
                    }
                }
            }
        } else {
            proof {
                assert(before[p as int] == name@);
                assert(before.contains(name@));
            }
        }
        n = n + 1;
    }
    proof {
        assert(names@.subrange(0, names@.len() as int) =~= names@);
    }
    out
}

/// The list offered for the whitelist holds each running application once, in
/// increasing order: it is strictly sorted.
pub proof fn lemma_strictly_sorted_has_no_duplicates(s: Seq<Seq<char>>)
    requires
        strictly_sorted(s),
    ensures
        forall|i: int, j: int| 0 <= i < j < s.len() ==> s[i] != s[j],
{
    assert forall|i: int, j: int| 0 <= i < j < s.len() implies s[i] != s[j] by {
        assert(text_lt(s[i], s[j]));
        lemma_text_lt_irreflexive(s[i]);
    }
}

} // verus!

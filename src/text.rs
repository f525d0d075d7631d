use vstd::prelude::*;
use vstd::string::*;

verus! {

/// What `str::to_lowercase` makes of a string.
pub uninterp spec fn lower_of(s: Seq<char>) -> Seq<char>;

/// What `str::trim` makes of a string.
pub uninterp spec fn trimmed_of(s: Seq<char>) -> Seq<char>;

/// What Inflector's `to_pascal_case` makes of a string.
pub uninterp spec fn pascal_of(s: Seq<char>) -> Seq<char>;

/// Relies on `str::to_lowercase`: the result depends on the characters alone.
#[verifier::external_body]
pub(crate) fn lowercase(s: &str) -> (r: String)
    ensures
        r@ == lower_of(s@),
{
    s.to_lowercase()
}

/// Relies on `str::trim`: the result depends on the characters alone.
#[verifier::external_body]
pub(crate) fn trim(s: &str) -> (r: &str)
    ensures
        r@ == trimmed_of(s@),
{
    s.trim()
}

/// Relies on Inflector's `to_pascal_case`: the result depends on the characters alone,
/// and an empty string stays empty.
#[verifier::external_body]
pub(crate) fn pascal_case(s: &str) -> (r: String)
    ensures
        r@ == pascal_of(s@),
        s@.len() == 0 ==> r@.len() == 0,
{
    inflector::cases::pascalcase::to_pascal_case(s)
}

/// `names` with `sep` between each two of them.
pub open spec fn join(names: Seq<Seq<char>>, sep: Seq<char>) -> Seq<char>
    decreases names.len(),
{
    if names.len() == 0 {
        Seq::empty()
    } else if names.len() == 1 {
        names[0]
    } else {
        join(names.drop_last(), sep) + sep + names.last()
    }
}

/// Whether two strings hold the same characters.
pub fn str_eq(a: &str, b: &str) -> (r: bool)
    ensures
        r == (a@ == b@),
{
    let n = a.unicode_len();
    if n != b.unicode_len() {
        return false;
    }
    let mut i: usize = 0;
    while i < n
        invariant
            i <= n,
            n == a@.len(),
            n == b@.len(),
            forall|j: int| 0 <= j < i ==> a@[j] == b@[j],
        decreases n - i,
    {
        if a.get_char(i) != b.get_char(i) {
            return false;
        }
        i += 1;
    }
    assert(a@ =~= b@);
    true
}

/// The labels of `pairs`, in order.
pub open spec fn labels<T>(pairs: Seq<(T, &str)>) -> Seq<Seq<char>> {
    pairs.map_values(|p: (T, &str)| p.1@)
}

/// The labels of `pairs`, joined by `sep`.
pub fn join_labels<T>(pairs: &[(T, &str)], sep: &str) -> (r: String)
    ensures
        r@ == join(labels(pairs@), sep@),
{
    let ghost names = labels(pairs@);
    let mut s = String::new();
    let mut i: usize = 0;
    while i < pairs.len()
        invariant
            i <= pairs@.len(),
            names == labels(pairs@),
            s@ == join(names.take(i as int), sep@),
        decreases pairs@.len() - i,
    {
        if i > 0 {
            s.append(sep);
        }
        s.append(pairs[i].1);
        assert(names.take(i + 1).drop_last() =~= names.take(i as int));
        i += 1;
    }
    assert(names.take(i as int) =~= names);
    s
}

/// The first entry of `pairs` whose label is `key`.
pub open spec fn lookup<T>(pairs: Seq<(T, &str)>, key: Seq<char>) -> Option<T>
    decreases pairs.len(),
{
    if pairs.len() == 0 {
        None
    } else if pairs[0].1@ == key {
        Some(pairs[0].0)
    } else {
        lookup(pairs.drop_first(), key)
    }
}

/// An entry that `lookup` finds has the key as its label; when it finds none, no
/// label is the key.
pub proof fn lemma_lookup<T>(pairs: Seq<(T, &str)>, key: Seq<char>)
    ensures
        lookup(pairs, key) matches Some(k) ==> exists|i: int|
            0 <= i < pairs.len() && #[trigger] pairs[i].0 == k && pairs[i].1@ == key,
        lookup(pairs, key) is None ==> forall|i: int|
            0 <= i < pairs.len() ==> #[trigger] pairs[i].1@ != key,
    decreases pairs.len(),
{
    if pairs.len() > 0 {
        lemma_lookup(pairs.drop_first(), key);
        if lookup(pairs, key) is None {
            assert forall|i: int| 0 <= i < pairs.len() implies #[trigger] pairs[i].1@ != key by {
                if i > 0 {
                    assert(pairs[i] == pairs.drop_first()[i - 1]);
                }
            }
        } else if pairs[0].1@ != key {
            let k = lookup(pairs, key).unwrap();
            let j = choose|j: int|
                0 <= j < pairs.drop_first().len() && #[trigger] pairs.drop_first()[j].0 == k
                    && pairs.drop_first()[j].1@ == key;
            assert(pairs[j + 1] == pairs.drop_first()[j]);
        }
    }
}

/// The entry of `pairs` labelled `value`, the first one if several are.
pub fn find_label<T: Copy>(value: &str, pairs: &[(T, &str)]) -> (r: Option<T>)
    ensures
        r == lookup(pairs@, value@),
{
    let mut i: usize = 0;
    assert(pairs@.subrange(0, pairs@.len() as int) =~= pairs@);
    while i < pairs.len()
        invariant
            i <= pairs@.len(),
            lookup(pairs@, value@) == lookup(pairs@.subrange(i as int, pairs@.len() as int), value@),
        decreases pairs@.len() - i,
    {
        let ghost rest = pairs@.subrange(i as int, pairs@.len() as int);
        assert(rest.drop_first() =~= pairs@.subrange(i + 1, pairs@.len() as int));
        if str_eq(pairs[i].1, value) {
            return Some(pairs[i].0);
        }
        i += 1;
    }
    None
}

} // verus!

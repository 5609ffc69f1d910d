//! An index of names by their lower case forms, for autocompletion.

use vstd::prelude::*;
use vstd::utf8::{char_u32_cast, encode_scalar, encode_utf8, encode_utf8_decode_utf8, encode_utf8_first_scalar};

verus! {

/// A trie of the `trie-rs` crate, from byte strings to values.
#[verifier::external_type_specification]
#[verifier::external_body]
#[verifier::reject_recursive_types(Label)]
#[verifier::reject_recursive_types(Value)]
pub struct ExTrie<Label, Value>(trie_rs::map::Trie<Label, Value>);

/// The builder of a trie of the `trie-rs` crate.
#[verifier::external_type_specification]
#[verifier::external_body]
#[verifier::reject_recursive_types(Label)]
#[verifier::reject_recursive_types(Value)]
pub struct ExTrieBuilder<Label, Value>(trie_rs::map::TrieBuilder<Label, Value>);

/// The entries of a trie.
pub uninterp spec fn trie_entries(trie: trie_rs::map::Trie<u8, String>) -> Map<Seq<u8>, Seq<char>>;

/// The entries of a trie that is being built.
pub uninterp spec fn builder_entries(builder: trie_rs::map::TrieBuilder<u8, String>) -> Map<Seq<u8>, Seq<char>>;

/// The lower case form of a text.
pub uninterp spec fn lowercase(s: Seq<char>) -> Seq<char>;

/// Converts a text to lower case with `str::to_lowercase`, by the tables of Unicode. Each character has a lower
/// case form of one or more characters, so that only the empty text has an empty one.
#[verifier::external_body]
fn to_lowercase(s: &str) -> (r: String)
    ensures
        r@ == lowercase(s@),
        r@.len() == 0 <==> s@.len() == 0,
{
    s.to_lowercase()
}

/// An index without entries.
pub open spec fn no_entries() -> Map<Seq<u8>, Seq<char>> {
    Map::empty()
}

/// Starts an empty trie with `TrieBuilder::new`.
#[verifier::external_body]
fn new_builder() -> (r: trie_rs::map::TrieBuilder<u8, String>)
    ensures
        builder_entries(r) == no_entries(),
{
    trie_rs::map::TrieBuilder::new()
}

/// Adds an entry with `TrieBuilder::push`, in place of an earlier entry with the same key. The crate panics on an
/// empty key.
#[verifier::external_body]
fn push_entry(builder: &mut trie_rs::map::TrieBuilder<u8, String>, key: &str, value: String)
    requires
        key@.len() > 0,
    ensures
        builder_entries(*final(builder)) == builder_entries(*old(builder)).insert(encode_utf8(key@), value@),
{
    builder.push(key, value)
}

/// Finishes a trie with `TrieBuilder::build`.
#[verifier::external_body]
fn build_trie(builder: trie_rs::map::TrieBuilder<u8, String>) -> (r: trie_rs::map::Trie<u8, String>)
    ensures
        trie_entries(r) == builder_entries(builder),
{
    builder.build()
}

/// Whether a byte string comes before another one in lexicographic order.
pub open spec fn bytes_before(a: Seq<u8>, b: Seq<u8>) -> bool
    decreases a.len(),
{
    if b.len() == 0 {
        false
    } else if a.len() == 0 {
        true
    } else if a.first() == b.first() {
        bytes_before(a.drop_first(), b.drop_first())
    } else {
        a.first() < b.first()
    }
}

/// Whether some found entries are those of an index whose keys start with a prefix, in the order of their keys.
pub open spec fn are_completions(
    found: Seq<(Vec<u8>, String)>,
    entries: Map<Seq<u8>, Seq<char>>,
    prefix: Seq<u8>,
) -> bool {
    &&& forall|i: int|
        0 <= i < found.len() ==> {
            &&& entries.contains_key((#[trigger] found[i]).0@)
            &&& entries[found[i].0@] == found[i].1@
            &&& prefix.is_prefix_of(found[i].0@)
        }
    &&& forall|i: int, j: int|
        0 <= i < j < found.len() ==> bytes_before((#[trigger] found[i]).0@, (#[trigger] found[j]).0@)
    &&& forall|key: Seq<u8>| #[trigger]
        entries.contains_key(key) && prefix.is_prefix_of(key) ==> exists|i: int|
            0 <= i < found.len() && (#[trigger] found[i]).0@ == key
}

/// Finds the entries whose keys start with a prefix with `Trie::predictive_search`. The crate walks the trie
/// depth first, and the labels below a node in ascending order, so that the entries come in the order of their keys.
#[verifier::external_body]
fn predictive_search(trie: &trie_rs::map::Trie<u8, String>, prefix: &str) -> (r: Vec<(Vec<u8>, String)>)
    ensures
        are_completions(r@, trie_entries(*trie), encode_utf8(prefix@)),
{
    trie.predictive_search(prefix).map(|(key, value): (Vec<u8>, &String)| (key, value.clone())).collect()
}

/// Whether some names are those of found entries, in the same order.
pub open spec fn are_values_of(names: Seq<String>, found: Seq<(Vec<u8>, String)>) -> bool {
    &&& names.len() == found.len()
    &&& forall|i: int| 0 <= i < names.len() ==> #[trigger] names[i]@ == found[i].1@
}

/// The entries of an index of names: each name under its lower case form, and of those with the same lower case
/// form the last one.
pub open spec fn index_of(names: Seq<Seq<char>>) -> Map<Seq<u8>, Seq<char>>
    decreases names.len(),
{
    if names.len() == 0 {
        no_entries()
    } else {
        index_of(names.drop_last()).insert(encode_utf8(lowercase(names.last())), names.last())
    }
}

/// Completes the start of a name, in whatever case, to names in the right case
#[derive(Debug)]
pub struct NameIndex {
    pub trie: trie_rs::map::Trie<u8, String>,
}

impl NameIndex {
    /// Index names.
    pub fn new(names: &[&String]) -> (r: NameIndex)
        requires
            forall|i: int| 0 <= i < names@.len() ==> (#[trigger] names@[i])@.len() > 0,
        ensures
            trie_entries(r.trie) == index_of(names@.map_values(|name: &String| name@)),
    {
        let ghost shown = names@.map_values(|name: &String| name@);
        let mut builder = new_builder();
        proof {
            assert(shown.take(0) =~= Seq::<Seq<char>>::empty());
        }
        for i in 0..names.len()
            invariant
                shown == names@.map_values(|name: &String| name@),
                forall|i: int| 0 <= i < names@.len() ==> (#[trigger] names@[i])@.len() > 0,
                builder_entries(builder) == index_of(shown.take(i as int)),
        {
            proof {
                assert(shown.take(i + 1).drop_last() =~= shown.take(i as int));
                assert(shown.take(i + 1).last() == names@[i as int]@);
            }
            let name = names[i];
            let key = to_lowercase(name.as_str());
            push_entry(&mut builder, key.as_str(), name.clone());
        }
        proof {
            assert(shown.take(shown.len() as int) =~= shown);
        }
        NameIndex { trie: build_trie(builder) }
    }

    /// The names that start with a prefix, in whatever case, in the order of their lower case forms.
    pub fn complete(&self, prefix: &str) -> (r: Vec<String>)
        ensures
            exists|found: Seq<(Vec<u8>, String)>| #[trigger]
                are_completions(found, trie_entries(self.trie), encode_utf8(lowercase(prefix@))) && are_values_of(
                    r@,
                    found,
                ),
            lowercase(prefix@).len() == 0 <==> prefix@.len() == 0,
    {
        let lower = to_lowercase(prefix);
        let found = predictive_search(&self.trie, lower.as_str());
        let mut names: Vec<String> = Vec::new();
        for i in 0..found.len()
            invariant
                names@.len() == i,
                forall|j: int| 0 <= j < i ==> #[trigger] names@[j]@ == found@[j].1@,
        {
            names.push(found[i].1.clone());
        }
        proof {
            assert(are_completions(found@, trie_entries(self.trie), encode_utf8(lowercase(prefix@))));
        }
        names
    }
}

/// Every entry of an index is one of the names, under its lower case form.
pub proof fn index_holds_the_names(names: Seq<Seq<char>>)
    ensures
        forall|key: Seq<u8>| #[trigger]
            index_of(names).contains_key(key) ==> names.contains(index_of(names)[key]) && key == encode_utf8(
                lowercase(index_of(names)[key]),
            ),
        forall|i: int|
            0 <= i < names.len() ==> index_of(names).contains_key(encode_utf8(lowercase(#[trigger] names[i]))),
    decreases names.len(),
{
    if names.len() > 0 {
        let init = names.drop_last();
        index_holds_the_names(init);
        assert forall|key: Seq<u8>| #[trigger] index_of(names).contains_key(key) implies names.contains(
            index_of(names)[key],
        ) && key == encode_utf8(lowercase(index_of(names)[key])) by {
            if key == encode_utf8(lowercase(names.last())) {
                assert(names[names.len() - 1] == names.last());
            } else {
                assert(index_of(init).contains_key(key));
                let i = choose|i: int| 0 <= i < init.len() && init[i] == index_of(init)[key];
                assert(names[i] == index_of(names)[key]);
            }
        }
        assert forall|i: int| 0 <= i < names.len() implies index_of(names).contains_key(
            encode_utf8(lowercase(#[trigger] names[i])),
        ) by {
            if i < init.len() {
                assert(init[i] == names[i]);
            }
        }
    }
}

/// One text is a prefix of another one exactly when its UTF-8 form is a prefix of the other's.
pub proof fn prefix_of_bytes_is_prefix_of_text(prefix: Seq<char>, text: Seq<char>)
    ensures
        encode_utf8(prefix).is_prefix_of(encode_utf8(text)) <==> prefix.is_prefix_of(text),
    decreases prefix.len(),
{
    let p = encode_utf8(prefix);
    let t = encode_utf8(text);
    if prefix.len() == 0 {
    } else if text.len() == 0 {
        encode_utf8_first_scalar(prefix);
        assert(p.len() > 0);
    } else {
        encode_utf8_first_scalar(prefix);
        encode_utf8_first_scalar(text);
        let first_p = encode_scalar(prefix[0] as u32);
        let first_t = encode_scalar(text[0] as u32);
        let rest_p = encode_utf8(prefix.drop_first());
        let rest_t = encode_utf8(text.drop_first());
        prefix_of_bytes_is_prefix_of_text(prefix.drop_first(), text.drop_first());
        if p.is_prefix_of(t) {
            assert forall|i: int| 0 <= i < p.len() implies p[i] == t[i] by {
                assert(t.subrange(0, p.len() as int)[i] == t[i]);
            }
            assert(prefix[0] as u32 == text[0] as u32);
            assert(first_p == first_t);
            assert(rest_p =~= rest_t.subrange(0, rest_p.len() as int)) by {
                assert forall|i: int| 0 <= i < rest_p.len() implies rest_p[i] == rest_t[i] by {
                    assert(p[first_p.len() + i] == rest_p[i]);
                    assert(t[first_t.len() + i] == rest_t[i]);
                }
            }
            assert(prefix.drop_first().is_prefix_of(text.drop_first()));
            assert(prefix =~= text.subrange(0, prefix.len() as int)) by {
                char_u32_cast(prefix[0], prefix[0] as u32);
                char_u32_cast(text[0], text[0] as u32);
                assert forall|i: int| 0 <= i < prefix.len() implies prefix[i] == text[i] by {
                    if i > 0 {
                        assert(prefix.drop_first()[i - 1] == text.drop_first().subrange(
                            0,
                            prefix.len() - 1,
                        )[i - 1]);
                        assert(prefix[i] == prefix.drop_first()[i - 1]);
                        assert(text[i] == text.drop_first()[i - 1]);
                    }
                }
            }
        }
        if prefix.is_prefix_of(text) {
            assert(prefix[0] == text.subrange(0, prefix.len() as int)[0]);
            assert(prefix.drop_first() =~= text.drop_first().subrange(0, prefix.len() - 1)) by {
                assert forall|i: int| 0 <= i < prefix.len() - 1 implies prefix.drop_first()[i]
                    == text.drop_first()[i] by {
                    assert(prefix[i + 1] == text.subrange(0, prefix.len() as int)[i + 1]);
                }
            }
            assert(rest_p.is_prefix_of(rest_t));
            assert(p =~= t.subrange(0, p.len() as int)) by {
                assert forall|i: int| 0 <= i < p.len() implies p[i] == t[i] by {
                    if i >= first_p.len() {
                        assert(rest_p[i - first_p.len()] == rest_t.subrange(
                            0,
                            rest_p.len() as int,
                        )[i - first_p.len()]);
                    }
                }
            }
        }
    }
}

/// A completion is one of the indexed names, and its lower case form starts with that of the prefix.
pub proof fn completions_start_with_the_prefix(
    found: Seq<(Vec<u8>, String)>,
    names: Seq<Seq<char>>,
    prefix: Seq<char>,
    i: int,
)
    requires
        are_completions(found, index_of(names), encode_utf8(lowercase(prefix))),
        0 <= i < found.len(),
    ensures
        names.contains(found[i].1@),
        lowercase(prefix).is_prefix_of(lowercase(found[i].1@)),
{
    index_holds_the_names(names);
    assert(index_of(names).contains_key(found[i].0@));
    prefix_of_bytes_is_prefix_of_text(lowercase(prefix), lowercase(found[i].1@));
}

/// Every indexed name that starts with the prefix, in whatever case, is among the completions, or another name
/// with the same lower case form is.
pub proof fn completions_miss_no_name(
    found: Seq<(Vec<u8>, String)>,
    names: Seq<Seq<char>>,
    prefix: Seq<char>,
    name: Seq<char>,
)
    requires
        are_completions(found, index_of(names), encode_utf8(lowercase(prefix))),
        names.contains(name),
        lowercase(prefix).is_prefix_of(lowercase(name)),
    ensures
        exists|i: int| 0 <= i < found.len() && lowercase((#[trigger] found[i]).1@) == lowercase(name),
{
    index_holds_the_names(names);
    prefix_of_bytes_is_prefix_of_text(lowercase(prefix), lowercase(name));
    let k = choose|k: int| 0 <= k < names.len() && names[k] == name;
    let key = encode_utf8(lowercase(names[k]));
    assert(index_of(names).contains_key(key));
    let i = choose|i: int| 0 <= i < found.len() && (#[trigger] found[i]).0@ == key;
    assert(index_of(names).contains_key(found[i].0@));
    encode_utf8_decode_utf8(lowercase(name));
    encode_utf8_decode_utf8(lowercase(found[i].1@));
}

/// A prefix with an empty lower case form, which is the empty one, is completed to every indexed name, or to
/// another name with the same lower case form.
pub proof fn empty_prefix_completes_to_all(
    found: Seq<(Vec<u8>, String)>,
    names: Seq<Seq<char>>,
    prefix: Seq<char>,
    name: Seq<char>,
)
    requires
        are_completions(found, index_of(names), encode_utf8(lowercase(prefix))),
        lowercase(prefix).len() == 0,
        names.contains(name),
    ensures
        exists|i: int| 0 <= i < found.len() && lowercase((#[trigger] found[i]).1@) == lowercase(name),
{
    assert(lowercase(prefix) =~= lowercase(name).subrange(0, 0));
    completions_miss_no_name(found, names, prefix, name);
}

} // verus!

//! The key-binding trie: a prefix-searchable map from key sequences to
//! command names, stored in a `sequence_trie::SequenceTrie` keyed by key codes.

use crate::bindings::parse_binding;
use crate::bindings::parse_to_key_combination;
use crate::bindings::ParseError;
use crate::commands::command_at;
use crate::commands::command_from_name;
use crate::commands::command_name;
use crate::commands::command_name_str;
use crate::commands::command_of;
use crate::commands::default_binding;
use crate::commands::default_binding_str;
use crate::commands::lemma_command_names;
use crate::commands::nth_command;
use crate::commands::Command;
use crate::commands::COMMAND_COUNT;
use crate::keys::key_code;
use crate::keys::key_codes;
use crate::keys::keys_to_codes;
use crate::keys::lemma_key_code_injective;
use crate::keys::lemma_key_codes_injective;
use crate::keys::Key;
use sequence_trie::SequenceTrie;
use vstd::prelude::*;

verus! {

/// A `sequence_trie::SequenceTrie` from key codes to command names, opaque
/// to the verifier: what it holds is known through `trie_bindings` and
/// `trie_paths` alone.
#[verifier::external_body]
pub struct CodeTrie {
    inner: SequenceTrie<u8, String>,
}

/// The values a trie stores, by the key sequence each is stored under.
pub uninterp spec fn trie_bindings(trie: CodeTrie) -> Map<Seq<u8>, Seq<char>>;

/// The key sequences that lead to a node of a trie, with or without a value.
pub uninterp spec fn trie_paths(trie: CodeTrie) -> Set<Seq<u8>>;

/// The prefixes of `key`, `key` itself and the empty sequence included.
pub open spec fn prefixes_of(key: Seq<u8>) -> Set<Seq<u8>> {
    Set::new(|p: Seq<u8>| p.is_prefix_of(key))
}

/// `SequenceTrie::new`: a root node without a value and without children.
/// Nothing is stored, and the only path is the empty one, to the root.
#[verifier::external_body]
fn trie_new() -> (made: CodeTrie)
    ensures
        trie_bindings(made).dom() == Set::<Seq<u8>>::empty(),
        trie_paths(made) == set![Seq::<u8>::empty()],
{
    CodeTrie { inner: SequenceTrie::new() }
}

/// `SequenceTrie::insert_owned`: walks down from the root along `key`,
/// creating each node that is missing, and stores `value` at the last one,
/// in place of what was there. Other values stay; the paths gain every
/// prefix of `key`.
#[verifier::external_body]
fn trie_insert(trie: &mut CodeTrie, key: &Vec<u8>, value: String)
    ensures
        trie_bindings(*final(trie)) == trie_bindings(*old(trie)).insert(key@, value@),
        trie_paths(*final(trie)) == trie_paths(*old(trie)).union(prefixes_of(key@)),
{
    trie.inner.insert_owned(key.clone(), value);
}

/// `SequenceTrie::get`: the value stored under exactly `key`, if there is one.
#[verifier::external_body]
fn trie_get<'a>(trie: &'a CodeTrie, key: &Vec<u8>) -> (value: Option<&'a String>)
    ensures
        value is Some <==> trie_bindings(*trie).contains_key(key@),
        value is Some ==> value->0@ == trie_bindings(*trie)[key@],
{
    trie.inner.get(key.iter())
}

/// `SequenceTrie::get_node`: whether walking down from the root along `key`
/// finds a node at every step.
#[verifier::external_body]
fn trie_has_node(trie: &CodeTrie, key: &Vec<u8>) -> (found: bool)
    ensures
        found == trie_paths(*trie).contains(key@),
{
    trie.inner.get_node(key.iter()).is_some()
}

/// What a buffer of keys is to a set of bindings.
#[derive(Debug, PartialEq, Eq)]
pub enum Lookup {
    /// The buffer is the beginning of no binding.
    NoMatch,
    /// The buffer is the beginning of a binding, and is not one itself.
    Interior,
    /// The buffer is a binding, of the command named.
    Command(String),
}

/// The mathematical form of a `Lookup`.
pub enum Match {
    NoMatch,
    Interior,
    Command(Seq<char>),
}

impl View for Lookup {
    type V = Match;

    open spec fn view(&self) -> Match {
        match self {
            Lookup::NoMatch => Match::NoMatch,
            Lookup::Interior => Match::Interior,
            Lookup::Command(name) => Match::Command(name@),
        }
    }
}

/// Whether some binding of `bindings` begins with `buffer`.
pub open spec fn begins_binding(bindings: Map<Seq<Key>, Seq<char>>, buffer: Seq<Key>) -> bool {
    exists|keys: Seq<Key>| #[trigger] bindings.contains_key(keys) && buffer.is_prefix_of(keys)
}

/// What `buffer` is to `bindings`: a binding, the beginning of one, or neither.
pub open spec fn lookup_spec(bindings: Map<Seq<Key>, Seq<char>>, buffer: Seq<Key>) -> Match {
    if bindings.contains_key(buffer) {
        Match::Command(bindings[buffer])
    } else if begins_binding(bindings, buffer) {
        Match::Interior
    } else {
        Match::NoMatch
    }
}

/// No binding is the beginning of another.
pub open spec fn prefix_free(bindings: Map<Seq<Key>, Seq<char>>) -> bool {
    forall|a: Seq<Key>, b: Seq<Key>|
        #[trigger] bindings.contains_key(a) && #[trigger] bindings.contains_key(b)
            && a.is_prefix_of(b) ==> a == b
}

/// Whether `keys` cannot join `bindings`: a binding other than `keys` begins
/// with `keys`, or `keys` begins with one.
pub open spec fn conflicts(bindings: Map<Seq<Key>, Seq<char>>, keys: Seq<Key>) -> bool {
    exists|other: Seq<Key>|
        #[trigger] bindings.contains_key(other) && other != keys && (other.is_prefix_of(keys)
            || keys.is_prefix_of(other))
}

/// A stored binding is found under its own keys, and every proper beginning
/// of it is interior: it yields no command and is no dead end.
pub proof fn lemma_lookup_stored(
    bindings: Map<Seq<Key>, Seq<char>>,
    keys: Seq<Key>,
    buffer: Seq<Key>,
)
    requires
        prefix_free(bindings),
        bindings.contains_key(keys),
        buffer.is_prefix_of(keys),
    ensures
        lookup_spec(bindings, keys) == Match::Command(bindings[keys]),
        buffer != keys ==> lookup_spec(bindings, buffer) == Match::Interior,
{
    if buffer != keys {
        if bindings.contains_key(buffer) {
            assert(buffer == keys);
        }
        assert(begins_binding(bindings, buffer));
    }
}

/// The codes of a beginning of `b` are a beginning of the codes of `b`, and
/// conversely.
proof fn lemma_codes_prefix(a: Seq<Key>, b: Seq<Key>)
    ensures
        key_codes(a).is_prefix_of(key_codes(b)) <==> a.is_prefix_of(b),
{
    assert(key_codes(a).len() == a.len());
    assert(key_codes(b).len() == b.len());
    if a.is_prefix_of(b) {
        assert(key_codes(a) =~= key_codes(b).subrange(0, a.len() as int));
    }
    if key_codes(a).is_prefix_of(key_codes(b)) {
        assert forall|i: int| 0 <= i < a.len() implies a[i] == b[i] by {
            assert(key_codes(a)[i] == key_codes(b).subrange(0, a.len() as int)[i]);
            assert(key_codes(a)[i] == key_code(a[i]));
            assert(key_codes(b)[i] == key_code(b[i]));
            lemma_key_code_injective(a[i], b[i]);
        }
        assert(a =~= b.subrange(0, a.len() as int));
    }
}

/// The bindings of a trie, by key sequence instead of code sequence.
pub open spec fn keyed(codes: Map<Seq<u8>, Seq<char>>) -> Map<Seq<Key>, Seq<char>> {
    Map::new(
        |keys: Seq<Key>| codes.contains_key(key_codes(keys)),
        |keys: Seq<Key>| codes[key_codes(keys)],
    )
}

/// Whether a code trie is one that `KeyBindingsTrie` keeps: every stored
/// sequence is the codes of keys, no stored sequence begins another, the
/// nodes are those on the way to a stored sequence, and `any` tells whether
/// anything is stored.
pub open spec fn code_wf(trie: CodeTrie, any: bool) -> bool {
    &&& forall|c: Seq<u8>| #[trigger]
        trie_bindings(trie).contains_key(c) ==> exists|keys: Seq<Key>| #[trigger]
            key_codes(keys) == c
    &&& forall|a: Seq<u8>, b: Seq<u8>|
        #[trigger] trie_bindings(trie).contains_key(a) && #[trigger] trie_bindings(
            trie,
        ).contains_key(b) && a.is_prefix_of(b) ==> a == b
    &&& forall|p: Seq<u8>| #[trigger]
        trie_paths(trie).contains(p) <==> (p.len() == 0 || code_begins(trie_bindings(trie), p))
    &&& any <==> exists|c: Seq<u8>| #[trigger] trie_bindings(trie).contains_key(c)
}

/// Whether some stored sequence begins with `p`.
pub open spec fn code_begins(codes: Map<Seq<u8>, Seq<char>>, p: Seq<u8>) -> bool {
    exists|c: Seq<u8>| #[trigger] codes.contains_key(c) && p.is_prefix_of(c)
}

/// Whether `c` cannot join `codes`, as `conflicts` says it of keys.
pub open spec fn code_conflicts(codes: Map<Seq<u8>, Seq<char>>, c: Seq<u8>) -> bool {
    exists|other: Seq<u8>|
        #[trigger] codes.contains_key(other) && other != c && (other.is_prefix_of(c)
            || c.is_prefix_of(other))
}

/// In a trie that `code_wf` holds of, beginnings and conflicts of keys are
/// those of their codes.
proof fn lemma_keyed(trie: CodeTrie, any: bool, keys: Seq<Key>)
    requires
        code_wf(trie, any),
    ensures
        begins_binding(keyed(trie_bindings(trie)), keys) <==> code_begins(
            trie_bindings(trie),
            key_codes(keys),
        ),
        conflicts(keyed(trie_bindings(trie)), keys) <==> code_conflicts(
            trie_bindings(trie),
            key_codes(keys),
        ),
        prefix_free(keyed(trie_bindings(trie))),
{
    let codes = trie_bindings(trie);
    let m = keyed(codes);
    let c = key_codes(keys);
    if begins_binding(m, keys) {
        let k = choose|k: Seq<Key>| #[trigger] m.contains_key(k) && keys.is_prefix_of(k);
        lemma_codes_prefix(keys, k);
        assert(codes.contains_key(key_codes(k)));
    }
    if code_begins(codes, c) {
        let d = choose|d: Seq<u8>| #[trigger] codes.contains_key(d) && c.is_prefix_of(d);
        let k = choose|k: Seq<Key>| #[trigger] key_codes(k) == d;
        lemma_codes_prefix(keys, k);
        assert(m.contains_key(k));
    }
    if conflicts(m, keys) {
        let k = choose|k: Seq<Key>|
            #[trigger] m.contains_key(k) && k != keys && (k.is_prefix_of(keys)
                || keys.is_prefix_of(k));
        lemma_codes_prefix(keys, k);
        lemma_codes_prefix(k, keys);
        lemma_key_codes_injective(k, keys);
        assert(codes.contains_key(key_codes(k)));
    }
    if code_conflicts(codes, c) {
        let d = choose|d: Seq<u8>|
            #[trigger] codes.contains_key(d) && d != c && (d.is_prefix_of(c) || c.is_prefix_of(
                d,
            ));
        let k = choose|k: Seq<Key>| #[trigger] key_codes(k) == d;
        lemma_codes_prefix(keys, k);
        lemma_codes_prefix(k, keys);
        assert(m.contains_key(k));
    }
    assert forall|a: Seq<Key>, b: Seq<Key>|
        #[trigger] m.contains_key(a) && #[trigger] m.contains_key(b) && a.is_prefix_of(
            b,
        ) implies a == b by {
        lemma_codes_prefix(a, b);
        assert(codes.contains_key(key_codes(a)) && codes.contains_key(key_codes(b)));
        lemma_key_codes_injective(a, b);
    }
}

/// Whether `codes` cannot join what `trie` stores.
fn has_conflict(trie: &CodeTrie, any: bool, codes: &Vec<u8>) -> (conflict: bool)
    requires
        code_wf(*trie, any),
    ensures
        conflict == code_conflicts(trie_bindings(*trie), codes@),
{
    let ghost stored = trie_bindings(*trie);
    let mut prefix: Vec<u8> = Vec::new();
    let mut j: usize = 0;
    while j < codes.len()
        invariant
            j <= codes.len(),
            stored == trie_bindings(*trie),
            prefix@ == codes@.subrange(0, j as int),
            forall|i: int| 0 <= i < j ==> !stored.contains_key(#[trigger] codes@.subrange(0, i)),
        decreases codes.len() - j,
    {
        if trie_get(trie, &prefix).is_some() {
            assert(stored.contains_key(prefix@));
            assert(prefix@.len() != codes@.len());
            assert(prefix@.is_prefix_of(codes@));
            return true;
        }
        prefix.push(codes[j]);
        assert(prefix@ =~= codes@.subrange(0, j + 1));
        j += 1;
    }
    let on_path = trie_has_node(trie, codes);
    let stored_here = trie_get(trie, codes).is_some();
    if on_path && !stored_here && (codes.len() > 0 || any) {
        proof {
            if codes@.len() == 0 {
                let c = choose|c: Seq<u8>| #[trigger] stored.contains_key(c);
                assert(codes@.is_prefix_of(c));
            } else {
                assert(code_begins(stored, codes@));
                let c = choose|c: Seq<u8>| #[trigger] stored.contains_key(c) && codes@.is_prefix_of(c);
                assert(c != codes@);
            }
        }
        return true;
    }
    proof {
        if code_conflicts(stored, codes@) {
            let other = choose|other: Seq<u8>|
                #[trigger] stored.contains_key(other) && other != codes@ && (other.is_prefix_of(
                    codes@,
                ) || codes@.is_prefix_of(other));
            if other.is_prefix_of(codes@) {
                assert(other =~= codes@.subrange(0, other.len() as int));
                assert(other.len() < codes@.len());
            } else {
                assert(code_begins(stored, codes@));
                assert(trie_paths(*trie).contains(codes@));
                assert(stored.contains_key(codes@));
            }
        }
    }
    false
}

/// A trie that stores nothing, and that `code_wf` holds of.
fn empty_trie() -> (trie: CodeTrie)
    ensures
        code_wf(trie, false),
        keyed(trie_bindings(trie)) == Map::<Seq<Key>, Seq<char>>::empty(),
{
    let trie = trie_new();
    assert(keyed(trie_bindings(trie)) =~= Map::<Seq<Key>, Seq<char>>::empty());
    assert forall|p: Seq<u8>| #[trigger]
        trie_paths(trie).contains(p) <==> (p.len() == 0 || code_begins(trie_bindings(trie), p)) by {
        if p.len() == 0 {
            assert(p =~= Seq::<u8>::empty());
        }
    }
    trie
}

/// Binds `keys` to `command` in `trie`, in place of what `keys` was bound
/// to. The trie stays as it is where the binding would conflict with another.
fn bind(trie: &mut CodeTrie, any: bool, keys: &Vec<Key>, command: String) -> (added: bool)
    requires
        code_wf(*old(trie), any),
    ensures
        code_wf(*final(trie), any || added),
        added == !conflicts(keyed(trie_bindings(*old(trie))), keys@),
        added ==> keyed(trie_bindings(*final(trie))) == keyed(trie_bindings(*old(trie))).insert(
            keys@,
            command@,
        ),
        !added ==> trie_bindings(*final(trie)) == trie_bindings(*old(trie)),
{
    proof {
        lemma_keyed(*trie, any, keys@);
    }
    let codes = keys_to_codes(keys);
    if has_conflict(trie, any, &codes) {
        return false;
    }
    let ghost before = trie_bindings(*trie);
    let ghost paths = trie_paths(*trie);
    trie_insert(trie, &codes, command);
    proof {
        let after = trie_bindings(*trie);
        assert(after == before.insert(codes@, command@));
        assert(after.contains_key(codes@));
        assert forall|p: Seq<u8>| #[trigger]
            trie_paths(*trie).contains(p) <==> (p.len() == 0 || code_begins(after, p)) by {
            if paths.contains(p) && p.len() != 0 {
                assert(code_begins(before, p));
                let c = choose|c: Seq<u8>| #[trigger] before.contains_key(c) && p.is_prefix_of(c);
                assert(after.contains_key(c));
            }
            if p.is_prefix_of(codes@) {
                assert(after.contains_key(codes@));
            }
            if code_begins(after, p) {
                let c = choose|c: Seq<u8>| #[trigger] after.contains_key(c) && p.is_prefix_of(c);
                if c != codes@ {
                    assert(before.contains_key(c));
                    assert(code_begins(before, p));
                }
            }
        }
        assert forall|a: Seq<u8>, b: Seq<u8>|
            #[trigger] after.contains_key(a) && #[trigger] after.contains_key(b) && a.is_prefix_of(
                b,
            ) implies a == b by {
            if a != codes@ {
                assert(before.contains_key(a));
            }
            if b != codes@ {
                assert(before.contains_key(b));
            }
        }
        assert forall|c: Seq<u8>| #[trigger] after.contains_key(c) implies exists|ks: Seq<Key>|
            #[trigger] key_codes(ks) == c by {
            if c == codes@ {
                assert(key_codes(keys@) == c);
            } else {
                assert(before.contains_key(c));
            }
        }
        assert forall|ks: Seq<Key>|
            keyed(after).contains_key(ks) <==> keyed(before).insert(keys@, command@).contains_key(
                ks,
            ) by {
            lemma_key_codes_injective(ks, keys@);
        }
        assert forall|ks: Seq<Key>| keyed(after).contains_key(ks) implies keyed(after)[ks] == keyed(
            before,
        ).insert(keys@, command@)[ks] by {
            lemma_key_codes_injective(ks, keys@);
        }
        assert(keyed(after) =~= keyed(before).insert(keys@, command@));
    }
    true
}

/// The key bindings: a map from key combinations to command names in which
/// no binding is the beginning of another, so that a buffer of keystrokes
/// can be resolved as it grows.
pub struct KeyBindingsTrie {
    trie: CodeTrie,
    any: bool,
}

impl View for KeyBindingsTrie {
    type V = Map<Seq<Key>, Seq<char>>;

    closed spec fn view(&self) -> Map<Seq<Key>, Seq<char>> {
        keyed(trie_bindings(self.trie))
    }
}

impl KeyBindingsTrie {
    /// The invariant of the type.
    #[verifier::type_invariant]
    pub closed spec fn wf(self) -> bool {
        code_wf(self.trie, self.any)
    }

    /// The bindings of a trie are free of prefixes.
    pub proof fn lemma_prefix_free(self)
        requires
            self.wf(),
        ensures
            prefix_free(self@),
    {
        lemma_keyed(self.trie, self.any, Seq::<Key>::empty());
    }

    /// A trie without bindings.
    pub fn new() -> (made: KeyBindingsTrie)
        ensures
            made.wf(),
            made@ == Map::<Seq<Key>, Seq<char>>::empty(),
    {
        KeyBindingsTrie { trie: empty_trie(), any: false }
    }

    /// Resolves a buffer of keys against the bindings.
    pub fn lookup(&self, buffer: &Vec<Key>) -> (found: Lookup)
        ensures
            found@ == lookup_spec(self@, buffer@),
    {
        proof {
            use_type_invariant(self);
            lemma_keyed(self.trie, self.any, buffer@);
        }
        let codes = keys_to_codes(buffer);
        if !trie_has_node(&self.trie, &codes) {
            return Lookup::NoMatch;
        }
        match trie_get(&self.trie, &codes) {
            Some(name) => Lookup::Command(name.clone()),
            None => {
                if codes.len() == 0 && !self.any {
                    proof {
                        if code_begins(trie_bindings(self.trie), codes@) {
                            let c = choose|c: Seq<u8>| #[trigger]
                                trie_bindings(self.trie).contains_key(c) && codes@.is_prefix_of(c);
                            assert(trie_bindings(self.trie).contains_key(c));
                        }
                    }
                    Lookup::NoMatch
                } else {
                    proof {
                        if codes@.len() == 0 {
                            let c = choose|c: Seq<u8>| #[trigger]
                                trie_bindings(self.trie).contains_key(c);
                            assert(codes@.is_prefix_of(c));
                        }
                    }
                    Lookup::Interior
                }
            },
        }
    }
}

/// Why a set of bindings is refused.
#[derive(Clone, Copy, Debug, PartialEq, Eq, Hash, Structural)]
pub enum BindingError {
    /// An entry binds a name that is no command.
    UnknownAction,
    /// A binding does not parse.
    Parse(ParseError),
    /// A binding is the beginning of another binding.
    PrefixConflict,
}

/// The entries of a configuration, as pairs of character sequences: the
/// name of a command and the text of its binding.
pub open spec fn entries_view(kb: Seq<(String, String)>) -> Seq<(Seq<char>, Seq<char>)> {
    kb.map_values(|e: (String, String)| (e.0@, e.1@))
}

/// The binding that the entries give to `action`: that of the first entry
/// that names it.
pub open spec fn user_binding(entries: Seq<(Seq<char>, Seq<char>)>, action: Seq<char>) -> Option<
    Seq<char>,
>
    decreases entries.len(),
{
    if entries.len() == 0 {
        None
    } else if entries[0].0 == action {
        Some(entries[0].1)
    } else {
        user_binding(entries.drop_first(), action)
    }
}

/// The binding in force for `command`: the user's, or else the default.
pub open spec fn effective_binding(entries: Seq<(Seq<char>, Seq<char>)>, command: Command) -> Option<
    Seq<char>,
> {
    match user_binding(entries, command_name(command)) {
        Some(text) => Some(text),
        None => default_binding(command),
    }
}

/// Whether every entry names a command.
pub open spec fn all_known(entries: Seq<(Seq<char>, Seq<char>)>) -> bool {
    forall|i: int| 0 <= i < entries.len() ==> command_of(#[trigger] entries[i].0) is Some
}

/// The bindings of the first `n` commands, each bound in turn to the key
/// combination that its binding in force parses to; the first binding that
/// does not parse, or that conflicts with those before it, ends it.
pub open spec fn bindings_upto(entries: Seq<(Seq<char>, Seq<char>)>, n: int) -> Result<
    Map<Seq<Key>, Seq<char>>,
    BindingError,
>
    decreases n,
{
    if n <= 0 {
        Ok(Map::empty())
    } else {
        match bindings_upto(entries, n - 1) {
            Err(e) => Err(e),
            Ok(bound) => match effective_binding(entries, command_at(n - 1)) {
                None => Ok(bound),
                Some(text) => match parse_binding(text) {
                    Err(e) => Err(BindingError::Parse(e)),
                    Ok(keys) => if conflicts(bound, keys) {
                        Err(BindingError::PrefixConflict)
                    } else {
                        Ok(bound.insert(keys, command_name(command_at(n - 1))))
                    },
                },
            },
        }
    }
}

/// The bindings that the entries of a configuration amount to, with the
/// defaults for the commands they leave out.
pub open spec fn expected_bindings(entries: Seq<(Seq<char>, Seq<char>)>) -> Result<
    Map<Seq<Key>, Seq<char>>,
    BindingError,
> {
    if !all_known(entries) {
        Err(BindingError::UnknownAction)
    } else {
        bindings_upto(entries, COMMAND_COUNT as int)
    }
}

/// The view of the result of building a trie.
pub open spec fn built_view(made: Result<KeyBindingsTrie, BindingError>) -> Result<
    Map<Seq<Key>, Seq<char>>,
    BindingError,
> {
    match made {
        Ok(trie) => Ok(trie@),
        Err(e) => Err(e),
    }
}

/// Entries that do not name `action` do not matter to its binding.
proof fn lemma_user_binding_skip(entries: Seq<(Seq<char>, Seq<char>)>, action: Seq<char>, n: int)
    requires
        0 <= n <= entries.len(),
        forall|j: int| 0 <= j < n ==> (#[trigger] entries[j]).0 != action,
    ensures
        user_binding(entries, action) == user_binding(entries.subrange(n, entries.len() as int), action),
    decreases n,
{
    if n == 0 {
        assert(entries.subrange(0, entries.len() as int) =~= entries);
    } else {
        let rest = entries.drop_first();
        assert(entries[0].0 != action);
        assert forall|j: int| 0 <= j < n - 1 implies (#[trigger] rest[j]).0 != action by {
            assert(rest[j] == entries[j + 1]);
        }
        lemma_user_binding_skip(rest, action, n - 1);
        assert(rest.subrange(n - 1, rest.len() as int) =~= entries.subrange(
            n,
            entries.len() as int,
        ));
    }
}

/// The binding that the entries give to `action`.
fn find_user_binding<'a>(kb: &'a Vec<(String, String)>, action: &str) -> (found: Option<&'a String>)
    ensures
        found is Some <==> user_binding(entries_view(kb@), action@) is Some,
        found is Some ==> found->0@ == user_binding(entries_view(kb@), action@)->0,
{
    let ghost entries = entries_view(kb@);
    let mut i: usize = 0;
    while i < kb.len()
        invariant
            i <= kb.len(),
            entries == entries_view(kb@),
            forall|j: int| 0 <= j < i ==> (#[trigger] entries[j]).0 != action@,
        decreases kb.len() - i,
    {
        assert(entries[i as int] == (kb@[i as int].0@, kb@[i as int].1@));
        if crate::text::str_eq(kb[i].0.as_str(), action) {
            proof {
                lemma_user_binding_skip(entries, action@, i as int);
                let rest = entries.subrange(i as int, entries.len() as int);
                assert(rest[0] == entries[i as int]);
            }
            return Some(&kb[i].1);
        }
        i += 1;
    }
    proof {
        lemma_user_binding_skip(entries, action@, entries.len() as int);
    }
    None
}

/// Builds the trie of the bindings in force: for each command the binding
/// that `kb` gives it, or else its default. An entry of `kb` is the name of
/// a command and the text of its binding; of several entries for one
/// command the first counts.
pub fn create_key_bindings_trie(kb: &Vec<(String, String)>) -> (made: Result<
    KeyBindingsTrie,
    BindingError,
>)
    ensures
        built_view(made) == expected_bindings(entries_view(kb@)),
        made is Ok ==> made->Ok_0.wf(),
{
    let ghost entries = entries_view(kb@);
    let mut i: usize = 0;
    while i < kb.len()
        invariant
            i <= kb.len(),
            entries == entries_view(kb@),
            forall|j: int| 0 <= j < i ==> command_of(#[trigger] entries[j].0) is Some,
        decreases kb.len() - i,
    {
        assert(entries[i as int] == (kb@[i as int].0@, kb@[i as int].1@));
        if command_from_name(kb[i].0.as_str()).is_none() {
            assert(command_of(entries[i as int].0) is None);
            return Err(BindingError::UnknownAction);
        }
        i += 1;
    }
    let mut trie = empty_trie();
    let mut any = false;
    let mut n: usize = 0;
    while n < COMMAND_COUNT
        invariant
            n <= COMMAND_COUNT,
            entries == entries_view(kb@),
            all_known(entries),
            code_wf(trie, any),
            bindings_upto(entries, n as int) == Ok::<Map<Seq<Key>, Seq<char>>, BindingError>(
                keyed(trie_bindings(trie)),
            ),
        decreases COMMAND_COUNT - n,
    {
        let command = nth_command(n);
        let name = command_name_str(command);
        let user = find_user_binding(kb, name);
        let text: Option<&str> = match user {
            Some(t) => Some(t.as_str()),
            None => default_binding_str(command),
        };
        match text {
            None => {},
            Some(t) => {
                assert(effective_binding(entries, command) == Some(t@));
                match parse_to_key_combination(t) {
                    Err(e) => {
                        proof {
                            lemma_error_stays(entries, n + 1, COMMAND_COUNT as int);
                        }
                        return Err(BindingError::Parse(e));
                    },
                    Ok(keys) => {
                        let added = bind(&mut trie, any, &keys, name.to_owned());
                        if !added {
                            proof {
                                lemma_error_stays(entries, n + 1, COMMAND_COUNT as int);
                            }
                            return Err(BindingError::PrefixConflict);
                        }
                        any = true;
                    },
                }
            },
        }
        n += 1;
    }
    Ok(KeyBindingsTrie { trie, any })
}

/// A binding that is refused stays refused, whatever follows it.
proof fn lemma_error_stays(entries: Seq<(Seq<char>, Seq<char>)>, n: int, m: int)
    requires
        n <= m,
        bindings_upto(entries, n) is Err,
    ensures
        bindings_upto(entries, m) == bindings_upto(entries, n),
    decreases m - n,
{
    if n < m {
        lemma_error_stays(entries, n, m - 1);
    }
}

/// Once the bindings of the first `n` commands stand, that of each of them
/// is among them.
proof fn lemma_bound_stays(entries: Seq<(Seq<char>, Seq<char>)>, n: int, i: int)
    requires
        0 <= i < n,
        bindings_upto(entries, n) is Ok,
        effective_binding(entries, command_at(i)) is Some,
    ensures
        bindings_upto(entries, i + 1) is Ok,
        parse_binding(effective_binding(entries, command_at(i))->0) is Ok,
        bindings_upto(entries, n)->Ok_0.contains_key(
            parse_binding(effective_binding(entries, command_at(i))->0)->Ok_0,
        ),
    decreases n,
{
    if n - 1 > i {
        lemma_bound_stays(entries, n - 1, i);
    }
}

/// Bindings of which one is the beginning of another are refused: where the
/// bindings in force for two commands parse, and the keys of one begin those
/// of the other without being equal to them, no trie is built.
pub proof fn lemma_prefix_conflict_refused(entries: Seq<(Seq<char>, Seq<char>)>, i: int, j: int)
    requires
        0 <= i < COMMAND_COUNT,
        0 <= j < COMMAND_COUNT,
        effective_binding(entries, command_at(i)) is Some,
        effective_binding(entries, command_at(j)) is Some,
        parse_binding(effective_binding(entries, command_at(i))->0) is Ok,
        parse_binding(effective_binding(entries, command_at(j))->0) is Ok,
        parse_binding(effective_binding(entries, command_at(i))->0)->Ok_0.is_prefix_of(
            parse_binding(effective_binding(entries, command_at(j))->0)->Ok_0,
        ),
        parse_binding(effective_binding(entries, command_at(i))->0)->Ok_0 != parse_binding(
            effective_binding(entries, command_at(j))->0,
        )->Ok_0,
    ensures
        expected_bindings(entries) is Err,
{
    let a = parse_binding(effective_binding(entries, command_at(i))->0)->Ok_0;
    let b = parse_binding(effective_binding(entries, command_at(j))->0)->Ok_0;
    let count = COMMAND_COUNT as int;
    if expected_bindings(entries) is Ok {
        assert(i != j);
        let (first, second) = if i < j {
            (i, j)
        } else {
            (j, i)
        };
        lemma_bound_stays(entries, count, second);
        assert(bindings_upto(entries, second + 1) is Ok);
        assert(bindings_upto(entries, second) is Ok);
        lemma_bound_stays(entries, second, first);
        let bound = bindings_upto(entries, second)->Ok_0;
        if i < j {
            assert(bound.contains_key(a));
            assert(conflicts(bound, b));
        } else {
            assert(bound.contains_key(b));
            assert(conflicts(bound, a));
        }
    }
}

/// Every binding of a trie that is built is bound to the name of a command.
pub proof fn lemma_bindings_name_commands(entries: Seq<(Seq<char>, Seq<char>)>, n: int, keys: Seq<Key>)
    requires
        bindings_upto(entries, n) is Ok,
        bindings_upto(entries, n)->Ok_0.contains_key(keys),
    ensures
        command_of(bindings_upto(entries, n)->Ok_0[keys]) is Some,
    decreases n,
{
    if n > 0 {
        let before = bindings_upto(entries, n - 1)->Ok_0;
        let command = command_at(n - 1);
        lemma_command_names(command);
        match effective_binding(entries, command) {
            None => {
                lemma_bindings_name_commands(entries, n - 1, keys);
            },
            Some(text) => {
                if parse_binding(text)->Ok_0 != keys {
                    assert(before.contains_key(keys));
                    lemma_bindings_name_commands(entries, n - 1, keys);
                }
            },
        }
    }
}

} // verus!

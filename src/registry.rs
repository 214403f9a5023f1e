//! The two routing tables: command name to handler, and component rule to
//! handler. A table is modelled as a sequence of (key, handler) pairs in
//! registration order.
use vstd::prelude::*;
use vstd::string::StringSliceAdditionalSpecFns;
use crate::pattern::{bytes_equal, rule_matches, utf8_of, CustomIdPattern};

verus! {

/// `i` is the first position of table `t` that holds key `k`.
pub open spec fn is_first_key<K, H>(t: Seq<(K, H)>, k: K, i: int) -> bool {
    0 <= i < t.len() && t[i].0 == k && forall|j: int| 0 <= j < i ==> #[trigger] t[j].0 != k
}

/// Position of the entry with key `k` in table `t`.
pub open spec fn key_position<K, H>(t: Seq<(K, H)>, k: K) -> Option<int> {
    if exists|i: int| is_first_key(t, k, i) {
        Some(choose|i: int| is_first_key(t, k, i))
    } else {
        None
    }
}

pub proof fn lemma_key_position_is<K, H>(t: Seq<(K, H)>, k: K, i: int)
    requires
        is_first_key(t, k, i),
    ensures
        key_position(t, k) == Some(i),
{
    let m = choose|m: int| is_first_key(t, k, m);
    if m < i {
        assert(t[m].0 != k);
    } else if i < m {
        assert(t[i].0 != k);
    }
}

pub proof fn lemma_key_position_none<K, H>(t: Seq<(K, H)>, k: K)
    requires
        forall|j: int| 0 <= j < t.len() ==> #[trigger] t[j].0 != k,
    ensures
        key_position(t, k) is None,
{
}

/// The handler stored under key `k`, if any.
pub open spec fn lookup<K, H>(t: Seq<(K, H)>, k: K) -> Option<H> {
    match key_position(t, k) {
        Some(i) => Some(t[i].1),
        None => None,
    }
}

/// The table after storing `h` under `k`: the entry with that key is
/// replaced in place, or a new entry is appended.
pub open spec fn stored<K, H>(t: Seq<(K, H)>, k: K, h: H) -> Seq<(K, H)> {
    match key_position(t, k) {
        Some(i) => t.update(i, (k, h)),
        None => t.push((k, h)),
    }
}

/// `i` is the first position of table `t` whose rule selects identifier `id`.
pub open spec fn is_first_match<H>(t: Seq<((bool, Seq<char>), H)>, id: Seq<u8>, i: int) -> bool {
    0 <= i < t.len() && rule_matches(t[i].0, id) && forall|j: int|
        0 <= j < i ==> !rule_matches(#[trigger] t[j].0, id)
}

/// Position of the first entry whose rule selects identifier `id`.
pub open spec fn match_position<H>(t: Seq<((bool, Seq<char>), H)>, id: Seq<u8>) -> Option<int> {
    if exists|i: int| is_first_match(t, id, i) {
        Some(choose|i: int| is_first_match(t, id, i))
    } else {
        None
    }
}

pub proof fn lemma_match_position_is<H>(t: Seq<((bool, Seq<char>), H)>, id: Seq<u8>, i: int)
    requires
        is_first_match(t, id, i),
    ensures
        match_position(t, id) == Some(i),
{
    let m = choose|m: int| is_first_match(t, id, m);
    if m < i {
        assert(!rule_matches(t[m].0, id));
    } else if i < m {
        assert(!rule_matches(t[i].0, id));
    }
}

pub proof fn lemma_match_position_none<H>(t: Seq<((bool, Seq<char>), H)>, id: Seq<u8>)
    requires
        forall|j: int| 0 <= j < t.len() ==> !rule_matches(#[trigger] t[j].0, id),
    ensures
        match_position(t, id) is None,
{
}

/// The handler of the first entry whose rule selects identifier `id`.
pub open spec fn first_match<H>(t: Seq<((bool, Seq<char>), H)>, id: Seq<u8>) -> Option<H> {
    match match_position(t, id) {
        Some(i) => Some(t[i].1),
        None => None,
    }
}

/// Storing under a key makes the key find the stored handler, leaves every
/// other key finding what it found before, and grows the table only when
/// the key was new.
pub proof fn lemma_stored_lookup<K, H>(t: Seq<(K, H)>, k: K, h: H, other: K)
    ensures
        lookup(stored(t, k, h), k) == Some(h),
        other != k ==> lookup(stored(t, k, h), other) == lookup(t, other),
        stored(t, k, h).len() == if lookup(t, k) is Some { t.len() } else { t.len() + 1 },
{
    let s = stored(t, k, h);
    match key_position(t, k) {
        Some(i) => {
            lemma_key_position_is(t, k, i);
            assert(is_first_key(t, k, i));
            assert(is_first_key(s, k, i));
            lemma_key_position_is(s, k, i);
        },
        None => {
            assert forall|j: int| 0 <= j < t.len() implies #[trigger] t[j].0 != k by {
                if t[j].0 == k {
                    lemma_first_key_exists(t, k, j);
                }
            }
            assert(is_first_key(s, k, t.len() as int));
            lemma_key_position_is(s, k, t.len() as int);
        },
    }
    if other != k {
        match key_position(t, other) {
            Some(m) => {
                assert(is_first_key(t, other, m));
                assert(is_first_key(s, other, m));
                lemma_key_position_is(s, other, m);
            },
            None => {
                assert forall|j: int| 0 <= j < s.len() implies #[trigger] s[j].0 != other by {
                    if j < t.len() && t[j].0 == other {
                        lemma_first_key_exists(t, other, j);
                    }
                }
                lemma_key_position_none(s, other);
            },
        }
    }
}

/// No two entries of table `t` hold the same key.
pub open spec fn keys_unique<K, H>(t: Seq<(K, H)>) -> bool {
    forall|i: int, j: int| 0 <= i < t.len() && 0 <= j < t.len() && i != j ==> #[trigger] t[i].0 != #[trigger] t[j].0
}

/// Storing keeps the keys of a table unique.
pub proof fn lemma_stored_keeps_keys_unique<K, H>(t: Seq<(K, H)>, k: K, h: H)
    requires
        keys_unique(t),
    ensures
        keys_unique(stored(t, k, h)),
{
    let s = stored(t, k, h);
    match key_position(t, k) {
        Some(p) => {
            lemma_key_position_is(t, k, p);
            assert(is_first_key(t, k, p));
            assert forall|i: int, j: int| 0 <= i < s.len() && 0 <= j < s.len() && i != j implies #[trigger] s[i].0 != #[trigger] s[j].0 by {
                if i == p {
                    assert(t[j].0 != t[p].0);
                } else if j == p {
                    assert(t[i].0 != t[p].0);
                } else {
                    assert(t[i].0 != t[j].0);
                }
            }
        },
        None => {
            assert forall|j: int| 0 <= j < t.len() implies #[trigger] t[j].0 != k by {
                if t[j].0 == k {
                    lemma_first_key_exists(t, k, j);
                }
            }
            assert forall|i: int, j: int| 0 <= i < s.len() && 0 <= j < s.len() && i != j implies #[trigger] s[i].0 != #[trigger] s[j].0 by {
                if i == t.len() {
                    assert(t[j].0 != k);
                } else if j == t.len() {
                    assert(t[i].0 != k);
                } else {
                    assert(t[i].0 != t[j].0);
                }
            }
        },
    }
}

/// Storing twice under the same key keeps the size of the first store and
/// leaves the second handler in place.
pub proof fn lemma_stored_twice<K, H>(t: Seq<(K, H)>, k: K, h1: H, h2: H)
    ensures
        stored(stored(t, k, h1), k, h2).len() == stored(t, k, h1).len(),
        lookup(stored(stored(t, k, h1), k, h2), k) == Some(h2),
{
    lemma_stored_lookup(t, k, h1, k);
    lemma_stored_lookup(stored(t, k, h1), k, h2, k);
}

/// If some position holds key `k`, there is a first such position.
pub proof fn lemma_first_key_exists<K, H>(t: Seq<(K, H)>, k: K, j: int)
    requires
        0 <= j < t.len(),
        t[j].0 == k,
    ensures
        key_position(t, k) is Some,
    decreases j,
{
    if exists|m: int| 0 <= m < j && t[m].0 == k {
        let m = choose|m: int| 0 <= m < j && t[m].0 == k;
        lemma_first_key_exists(t, k, m);
    } else {
        assert(is_first_key(t, k, j));
    }
}

/// A command handler stored under its command name.
pub struct CommandEntry<C> {
    pub name: String,
    pub handler: C,
}

/// A component handler stored under its identifier rule.
pub struct ComponentEntry<M> {
    pub pattern: CustomIdPattern,
    pub handler: M,
}

/// The registry of an interactions endpoint: the public key that signs its
/// requests, the bot token for outbound calls, and the two routing tables.
pub struct Interactions<C, M> {
    public_key: String,
    token: String,
    commands: Vec<CommandEntry<C>>,
    components: Vec<ComponentEntry<M>>,
}

impl<C, M> Interactions<C, M> {
    /// The command table: (UTF-8 bytes of the name, handler), in
    /// registration order.
    pub closed spec fn command_table(&self) -> Seq<(Seq<u8>, C)> {
        self.commands@.map_values(|e: CommandEntry<C>| (utf8_of(e.name@), e.handler))
    }

    /// The component table: (rule, handler), in registration order.
    pub closed spec fn component_table(&self) -> Seq<((bool, Seq<char>), M)> {
        self.components@.map_values(|e: ComponentEntry<M>| (e.pattern.rule(), e.handler))
    }

    /// Each command name, and each component rule, is stored at most once.
    pub open spec fn wf(&self) -> bool {
        keys_unique(self.command_table()) && keys_unique(self.component_table())
    }

    pub closed spec fn public_key_text(&self) -> Seq<char> {
        self.public_key@
    }

    /// The UTF-8 bytes of the public key text.
    pub open spec fn public_key_text_bytes(&self) -> Seq<u8> {
        utf8_of(self.public_key_text())
    }

    pub closed spec fn token_text(&self) -> Seq<char> {
        self.token@
    }

    /// An endpoint with no handlers.
    pub fn new(public_key: String, token: String) -> (r: Self)
        ensures
            r.public_key_text() == public_key@,
            r.token_text() == token@,
            r.command_table() == Seq::<(Seq<u8>, C)>::empty(),
            r.component_table() == Seq::<((bool, Seq<char>), M)>::empty(),
            r.wf(),
    {
        let r = Interactions { public_key, token, commands: Vec::new(), components: Vec::new() };
        assert(r.command_table() =~= Seq::<(Seq<u8>, C)>::empty());
        assert(r.component_table() =~= Seq::<((bool, Seq<char>), M)>::empty());
        r
    }

    /// The public key (hex) that inbound requests are checked against.
    pub fn public_key(&self) -> (r: &str)
        ensures
            r@ == self.public_key_text(),
    {
        self.public_key.as_str()
    }

    /// The bot token used for outbound calls.
    pub fn token(&self) -> (r: &str)
        ensures
            r@ == self.token_text(),
    {
        self.token.as_str()
    }

    fn command_position(&self, name: &[u8]) -> (r: Option<usize>)
        ensures
            r is Some == key_position(self.command_table(), name@) is Some,
            r is Some ==> key_position(self.command_table(), name@) == Some(r->0 as int),
    {
        let ghost t = self.command_table();
        let mut i: usize = 0;
        while i < self.commands.len()
            invariant
                t == self.command_table(),
                t.len() == self.commands@.len(),
                i <= t.len(),
                forall|j: int| 0 <= j < i ==> #[trigger] t[j].0 != name@,
            decreases t.len() - i,
        {
            let key = self.commands[i].name.as_str().as_bytes();
            assert(t[i as int].0 == key@);
            if bytes_equal(key, name) {
                proof {
                    lemma_key_position_is(t, name@, i as int);
                }
                return Some(i);
            }
            i = i + 1;
        }
        proof {
            lemma_key_position_none(t, name@);
        }
        None
    }

    /// Stores `handler` under the command `name`, replacing the handler
    /// already stored under that name.
    pub fn register_application_command_handler(&mut self, name: &str, handler: C)
        ensures
            final(self).command_table() == stored(old(self).command_table(), name.spec_bytes(), handler),
            final(self).component_table() == old(self).component_table(),
            old(self).wf() ==> final(self).wf(),
            final(self).public_key_text() == old(self).public_key_text(),
            final(self).token_text() == old(self).token_text(),
    {
        let pos = self.command_position(name.as_bytes());
        let entry = CommandEntry { name: name.to_owned(), handler };
        match pos {
            Some(i) => {
                self.commands.set(i, entry);
            },
            None => {
                self.commands.push(entry);
            },
        }
        assert(self.command_table() =~= stored(old(self).command_table(), name.spec_bytes(), handler));
        assert(self.component_table() =~= old(self).component_table());
        proof {
            if old(self).wf() {
                lemma_stored_keeps_keys_unique(old(self).command_table(), name.spec_bytes(), handler);
            }
        }
    }

    /// The handler stored under the command `name`.
    pub fn find_command(&self, name: &str) -> (r: Option<&C>)
        ensures
            r.is_some() == lookup(self.command_table(), name.spec_bytes()).is_some(),
            r.is_some() ==> *r.unwrap() == lookup(self.command_table(), name.spec_bytes()).unwrap(),
    {
        let bytes = name.as_bytes();
        match self.command_position(bytes) {
            Some(i) => {
                let entry = &self.commands[i];
                assert(self.command_table()[i as int].1 == entry.handler);
                Some(&entry.handler)
            },
            None => None,
        }
    }

    fn component_position(&self, pattern: &CustomIdPattern) -> (r: Option<usize>)
        ensures
            r is Some == key_position(self.component_table(), pattern.rule()) is Some,
            r is Some ==> key_position(self.component_table(), pattern.rule()) == Some(r->0 as int),
    {
        let ghost t = self.component_table();
        let mut i: usize = 0;
        while i < self.components.len()
            invariant
                t == self.component_table(),
                t.len() == self.components@.len(),
                i <= t.len(),
                forall|j: int| 0 <= j < i ==> #[trigger] t[j].0 != pattern.rule(),
            decreases t.len() - i,
        {
            assert(t[i as int].0 == self.components@[i as int].pattern.rule());
            if self.components[i].pattern.same_rule(pattern) {
                proof {
                    lemma_key_position_is(t, pattern.rule(), i as int);
                }
                return Some(i);
            }
            i = i + 1;
        }
        proof {
            lemma_key_position_none(t, pattern.rule());
        }
        None
    }

    /// Stores `handler` under the identifier rule `pattern`, replacing the
    /// handler already stored under the same rule.
    pub fn register_message_component_handler(&mut self, pattern: CustomIdPattern, handler: M)
        ensures
            final(self).component_table() == stored(old(self).component_table(), pattern.rule(), handler),
            final(self).command_table() == old(self).command_table(),
            old(self).wf() ==> final(self).wf(),
            final(self).public_key_text() == old(self).public_key_text(),
            final(self).token_text() == old(self).token_text(),
    {
        let pos = self.component_position(&pattern);
        let ghost rule = pattern.rule();
        let entry = ComponentEntry { pattern, handler };
        match pos {
            Some(i) => {
                self.components.set(i, entry);
            },
            None => {
                self.components.push(entry);
            },
        }
        assert(self.component_table() =~= stored(old(self).component_table(), rule, handler));
        assert(self.command_table() =~= old(self).command_table());
        proof {
            if old(self).wf() {
                lemma_stored_keeps_keys_unique(old(self).component_table(), rule, handler);
            }
        }
    }

    /// The handler of the first registered rule that selects `custom_id`.
    pub fn find_component(&self, custom_id: &str) -> (r: Option<&M>)
        ensures
            r.is_some() == first_match(self.component_table(), custom_id.spec_bytes()).is_some(),
            r.is_some() ==> *r.unwrap() == first_match(self.component_table(), custom_id.spec_bytes()).unwrap(),
    {
        let ghost t = self.component_table();
        let ghost id = custom_id.spec_bytes();
        let mut i: usize = 0;
        while i < self.components.len()
            invariant
                t == self.component_table(),
                id == custom_id.spec_bytes(),
                t.len() == self.components@.len(),
                i <= t.len(),
                forall|j: int| 0 <= j < i ==> !rule_matches(#[trigger] t[j].0, id),
            decreases t.len() - i,
        {
            let entry = &self.components[i];
            assert(t[i as int].0 == entry.pattern.rule());
            assert(t[i as int].1 == entry.handler);
            if entry.pattern.matches(custom_id) {
                proof {
                    lemma_match_position_is(t, id, i as int);
                }
                return Some(&entry.handler);
            }
            i = i + 1;
        }
        proof {
            lemma_match_position_none(t, id);
        }
        None
    }
}

} // verus!

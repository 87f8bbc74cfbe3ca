//! The table of binds: what is to run when a key or a button is pressed.

use vstd::prelude::*;
use crate::keybinds::keys::{Keyboard, MouseButton};

verus! {

/// What is bound to a key or a button: a handler, and how it treats the
/// input event that fires it.
pub enum Bind<H, B> {
    /// The handler runs and the event goes on.
    NormalBind(H),
    /// The handler runs and the event is swallowed.
    BlockBind(H),
    /// The handler runs and says whether the event is swallowed.
    BlockableBind(B),
}

/// A key of a bind table: two keys can be told apart.
pub trait BindKey: Sized {
    /// Whether the two are the same key.
    fn same(&self, other: &Self) -> (r: bool)
        ensures
            r == (*self == *other),
    ;
}

impl BindKey for Keyboard {
    fn same(&self, other: &Self) -> (r: bool) {
        *self == *other
    }
}

impl BindKey for MouseButton {
    fn same(&self, other: &Self) -> (r: bool) {
        *self == *other
    }
}

/// The map that a list of entries stands for. Where a key occurs twice, the
/// later entry counts.
pub open spec fn bound<K, V>(entries: Seq<(K, V)>) -> Map<K, V>
    decreases entries.len(),
{
    if entries.len() == 0 {
        Map::empty()
    } else {
        bound(entries.drop_last()).insert(entries.last().0, entries.last().1)
    }
}

/// No key occurs in two entries.
pub open spec fn distinct_keys<K, V>(entries: Seq<(K, V)>) -> bool {
    forall|i: int, j: int| 0 <= i < j < entries.len() ==> entries[i].0 != entries[j].0
}

/// Whether some entry has the key.
pub open spec fn has_key<K, V>(entries: Seq<(K, V)>, key: K) -> bool {
    exists|i: int| 0 <= i < entries.len() && #[trigger] entries[i].0 == key
}

/// The map has a key where, and only where, an entry has it.
proof fn lemma_bound_dom<K, V>(entries: Seq<(K, V)>, key: K)
    ensures
        bound(entries).dom().contains(key) <==> has_key(entries, key),
    decreases entries.len(),
{
    if entries.len() > 0 {
        let front = entries.drop_last();
        lemma_bound_dom(front, key);
        if has_key(entries, key) {
            let i = choose|i: int| 0 <= i < entries.len() && #[trigger] entries[i].0 == key;
            if i < entries.len() - 1 {
                assert(front[i].0 == key);
            }
        }
        if has_key(front, key) {
            let i = choose|i: int| 0 <= i < front.len() && #[trigger] front[i].0 == key;
            assert(entries[i].0 == key);
        }
        if entries.last().0 == key {
            assert(entries[entries.len() - 1].0 == key);
        }
    }
}

/// Where no key occurs twice, the map gives each entry's key its bind.
proof fn lemma_bound_value<K, V>(entries: Seq<(K, V)>, i: int)
    requires
        distinct_keys(entries),
        0 <= i < entries.len(),
    ensures
        bound(entries).dom().contains(entries[i].0),
        bound(entries)[entries[i].0] == entries[i].1,
    decreases entries.len(),
{
    let front = entries.drop_last();
    if i < entries.len() - 1 {
        assert(distinct_keys(front)) by {
            assert forall|a: int, b: int| 0 <= a < b < front.len() implies front[a].0 != front[b].0 by {
                assert(entries[a].0 != entries[b].0);
            }
        }
        lemma_bound_value(front, i);
        assert(front[i] == entries[i]);
        assert(entries[i].0 != entries[entries.len() - 1].0);
    }
}

/// Where no key occurs twice, taking an entry out takes its key out of the
/// map and leaves the rest as it is.
proof fn lemma_bound_remove<K, V>(entries: Seq<(K, V)>, i: int)
    requires
        distinct_keys(entries),
        0 <= i < entries.len(),
    ensures
        distinct_keys(entries.remove(i)),
        !has_key(entries.remove(i), entries[i].0),
        bound(entries.remove(i)) == bound(entries).remove(entries[i].0),
    decreases entries.len(),
{
    let key = entries[i].0;
    let rest = entries.remove(i);
    let front = entries.drop_last();
    let last = entries.last();
    assert forall|a: int, b: int| 0 <= a < b < rest.len() implies rest[a].0 != rest[b].0 by {
        let a2 = if a < i { a } else { a + 1 };
        let b2 = if b < i { b } else { b + 1 };
        assert(entries[a2].0 != entries[b2].0);
    }
    assert forall|a: int| 0 <= a < rest.len() implies rest[a].0 != key by {
        let a2 = if a < i { a } else { a + 1 };
        if a2 < i {
            assert(entries[a2].0 != entries[i].0);
        } else {
            assert(entries[i].0 != entries[a2].0);
        }
    }
    assert(distinct_keys(front)) by {
        assert forall|a: int, b: int| 0 <= a < b < front.len() implies front[a].0 != front[b].0 by {
            assert(entries[a].0 != entries[b].0);
        }
    }
    if i == entries.len() - 1 {
        assert(rest =~= front);
        lemma_bound_dom(front, key);
        if has_key(front, key) {
            let a = choose|a: int| 0 <= a < front.len() && #[trigger] front[a].0 == key;
            assert(entries[a].0 != entries[i].0);
        }
        assert(bound(front) =~= bound(entries).remove(key));
    } else {
        lemma_bound_remove(front, i);
        assert(front[i] == entries[i]);
        assert(rest.drop_last() =~= front.remove(i));
        assert(rest.last() == last);
        assert(entries[i].0 != entries[entries.len() - 1].0);
        assert(bound(rest) =~= bound(entries).remove(key));
    }
}

/// A table from keys to binds.
pub struct BindMap<K, H, B> {
    entries: Vec<(K, Bind<H, B>)>,
}

impl<K, H, B> View for BindMap<K, H, B> {
    type V = Map<K, Bind<H, B>>;

    closed spec fn view(&self) -> Map<K, Bind<H, B>> {
        bound(self.entries@)
    }
}

impl<K, H, B> BindMap<K, H, B> {
    #[verifier::type_invariant]
    spec fn no_key_twice(&self) -> bool {
        distinct_keys(self.entries@)
    }
}

impl<K: BindKey, H, B> BindMap<K, H, B> {
    /// A table with no binds.
    pub fn new() -> (r: Self)
        ensures
            r@ == Map::<K, Bind<H, B>>::empty(),
    {
        BindMap { entries: Vec::new() }
    }

    /// The place of the entry for `key`, if there is one.
    fn position(&self, key: &K) -> (r: Option<usize>)
        ensures
            match r {
                Some(i) => i < self.entries@.len() && self.entries@[i as int].0 == *key,
                None => !has_key(self.entries@, *key),
            },
    {
        let n: usize = self.entries.len();
        let mut i: usize = 0;
        while i < n
            invariant
                i <= n == self.entries@.len(),
                forall|j: int| 0 <= j < i ==> self.entries@[j].0 != *key,
            decreases n - i,
        {
            if key.same(&self.entries[i].0) {
                return Some(i);
            }
            i = i + 1;
        }
        None
    }

    /// Whether `key` has a bind.
    pub fn contains(&self, key: &K) -> (r: bool)
        ensures
            r == self@.contains_key(*key),
    {
        proof {
            lemma_bound_dom(self.entries@, *key);
        }
        self.position(key).is_some()
    }

    /// The bind of `key`, if it has one.
    pub fn get(&self, key: &K) -> (r: Option<&Bind<H, B>>)
        ensures
            match r {
                Some(bind) => self@.contains_key(*key) && self@[*key] == *bind,
                None => !self@.contains_key(*key),
            },
    {
        proof {
            use_type_invariant(self);
            lemma_bound_dom(self.entries@, *key);
        }
        match self.position(key) {
            Some(i) => {
                proof {
                    lemma_bound_value(self.entries@, i as int);
                }
                Some(&self.entries[i].1)
            },
            None => None,
        }
    }

    /// Takes the bind of `key` away, if it has one.
    pub fn remove(&mut self, key: &K)
        ensures
            final(self)@ == old(self)@.remove(*key),
    {
        self.take_out(key);
    }

    /// Takes the entry of `key` out of the list, if there is one.
    fn take_out(&mut self, key: &K)
        ensures
            final(self)@ == old(self)@.remove(*key),
            !has_key(final(self).entries@, *key),
    {
        proof {
            use_type_invariant(&*self);
            lemma_bound_dom(self.entries@, *key);
        }
        match self.position(key) {
            Some(i) => {
                proof {
                    lemma_bound_remove(self.entries@, i as int);
                }
                let mut entries: Vec<(K, Bind<H, B>)> = Vec::new();
                core::mem::swap(&mut self.entries, &mut entries);
                entries.remove(i);
                self.entries = entries;
            },
            None => {
                assert(self@ =~= self@.remove(*key));
            },
        }
    }

    /// Binds `bind` to `key`, in place of what was bound to it.
    pub fn insert(&mut self, key: K, bind: Bind<H, B>)
        ensures
            final(self)@ == old(self)@.insert(key, bind),
    {
        self.take_out(&key);
        proof {
            use_type_invariant(&*self);
            let before = self.entries@;
            let after = before.push((key, bind));
            assert(after.drop_last() =~= before);
            assert forall|i: int, j: int| 0 <= i < j < after.len() implies after[i].0 != after[j].0 by {
                if j < before.len() {
                    assert(before[i].0 != before[j].0);
                } else {
                    assert(before[i].0 != key);
                }
            }
            assert(bound(after) =~= old(self)@.insert(key, bind));
        }
        let mut entries: Vec<(K, Bind<H, B>)> = Vec::new();
        core::mem::swap(&mut self.entries, &mut entries);
        entries.push((key, bind));
        self.entries = entries;
    }
}

/// Whether `key` has in `after` the bind, or the lack of one, that it has in
/// `before`.
pub open spec fn kept<K, V>(before: Map<K, V>, after: Map<K, V>, key: K) -> bool {
    &&& after.contains_key(key) == before.contains_key(key)
    &&& before.contains_key(key) ==> after[key] == before[key]
}

/// Whether `bind` is a normal bind of a handler that `callback` may make for
/// `key`.
pub open spec fn made_for_key<H, B, F: Fn(Keyboard) -> H>(callback: F, key: Keyboard, bind: Bind<H, B>) -> bool {
    match bind {
        Bind::NormalBind(handler) => callback.ensures((key,), handler),
        _ => false,
    }
}

impl Keyboard {
    /// Binds `callback` to this key. The input event goes on to the system.
    pub fn bind<H, B>(self, binds: &mut BindMap<Keyboard, H, B>, callback: H)
        ensures
            final(binds)@ == old(binds)@.insert(self, Bind::NormalBind(callback)),
    {
        binds.insert(self, Bind::NormalBind(callback));
    }

    /// Binds `callback` to this key. The input event is swallowed.
    pub fn block_bind<H, B>(self, binds: &mut BindMap<Keyboard, H, B>, callback: H)
        ensures
            final(binds)@ == old(binds)@.insert(self, Bind::BlockBind(callback)),
    {
        binds.insert(self, Bind::BlockBind(callback));
    }

    /// Binds `callback` to this key. The callback says whether the input
    /// event is swallowed.
    pub fn blockable_bind<H, B>(self, binds: &mut BindMap<Keyboard, H, B>, callback: B)
        ensures
            final(binds)@ == old(binds)@.insert(self, Bind::BlockableBind(callback)),
    {
        binds.insert(self, Bind::BlockableBind(callback));
    }

    /// Binds to every named key the handler that `callback` makes for it.
    /// The binds of the nameless keys stay as they are.
    pub fn bind_all<H, B, F: Fn(Keyboard) -> H>(binds: &mut BindMap<Keyboard, H, B>, callback: F)
        requires
            forall|k: Keyboard| callback.requires((k,)),
        ensures
            forall|k: Keyboard| k is OtherKey ==> #[trigger] kept(old(binds)@, final(binds)@, k),
            forall|k: Keyboard|
                !(k is OtherKey) ==> final(binds)@.contains_key(k) && made_for_key(callback, k, final(binds)@[k]),
    {
        let keys = Keyboard::all();
        let n: usize = keys.len();
        let mut i: usize = 0;
        while i < n
            invariant
                i <= n == keys@.len(),
                forall|k: Keyboard| callback.requires((k,)),
                forall|k: Keyboard|
                    !(k is OtherKey) ==> 0 <= #[trigger] k.ordinal() < n && keys@[k.ordinal()] == k,
                forall|j: int| 0 <= j < n ==> !(#[trigger] keys@[j] is OtherKey) && keys@[j].ordinal() == j,
                forall|k: Keyboard| k is OtherKey ==> #[trigger] kept(old(binds)@, binds@, k),
                forall|j: int|
                    0 <= j < i ==> binds@.contains_key(#[trigger] keys@[j]) && made_for_key(
                        callback,
                        keys@[j],
                        binds@[keys@[j]],
                    ),
            decreases n - i,
        {
            let key = keys[i];
            let handler = callback(key);
            let ghost before = binds@;
            binds.insert(key, Bind::NormalBind(handler));
            proof {
                assert forall|k: Keyboard| k is OtherKey implies #[trigger] kept(old(binds)@, binds@, k) by {
                    assert(kept(old(binds)@, before, k));
                    assert(k != key);
                }
                assert forall|j: int| 0 <= j < i + 1 implies binds@.contains_key(#[trigger] keys@[j])
                    && made_for_key(callback, keys@[j], binds@[keys@[j]]) by {
                    if j < i {
                        assert(keys@[j].ordinal() == j);
                        assert(keys@[i as int].ordinal() == i);
                        assert(keys@[j] != key);
                        assert(before.contains_key(keys@[j]));
                    }
                }
            }
            i = i + 1;
        }
        proof {
            assert forall|k: Keyboard| !(k is OtherKey) implies final(binds)@.contains_key(k) && made_for_key(
                callback,
                k,
                final(binds)@[k],
            ) by {
                let j = k.ordinal();
                assert(keys@[j] == k);
            }
        }
    }

    /// Takes the bind of this key away.
    pub fn unbind<H, B>(self, binds: &mut BindMap<Keyboard, H, B>)
        ensures
            final(binds)@ == old(binds)@.remove(self),
    {
        binds.remove(&self);
    }
}

/// Whether `bind` is a normal bind of a handler that `callback` may make for
/// `key`.
pub open spec fn made_for_button<H, B, F: Fn(MouseButton) -> H>(callback: F, key: MouseButton, bind: Bind<H, B>) -> bool {
    match bind {
        Bind::NormalBind(handler) => callback.ensures((key,), handler),
        _ => false,
    }
}

impl MouseButton {
    /// Binds `callback` to this button. The input event goes on to the system.
    pub fn bind<H, B>(self, binds: &mut BindMap<MouseButton, H, B>, callback: H)
        ensures
            final(binds)@ == old(binds)@.insert(self, Bind::NormalBind(callback)),
    {
        binds.insert(self, Bind::NormalBind(callback));
    }

    /// Binds `callback` to this button. The input event is swallowed.
    pub fn block_bind<H, B>(self, binds: &mut BindMap<MouseButton, H, B>, callback: H)
        ensures
            final(binds)@ == old(binds)@.insert(self, Bind::BlockBind(callback)),
    {
        binds.insert(self, Bind::BlockBind(callback));
    }

    /// Binds `callback` to this button. The callback says whether the input
    /// event is swallowed.
    pub fn blockable_bind<H, B>(self, binds: &mut BindMap<MouseButton, H, B>, callback: B)
        ensures
            final(binds)@ == old(binds)@.insert(self, Bind::BlockableBind(callback)),
    {
        binds.insert(self, Bind::BlockableBind(callback));
    }

    /// Binds to every named button the handler that `callback` makes for it.
    /// The binds of the nameless buttons stay as they are.
    pub fn bind_all<H, B, F: Fn(MouseButton) -> H>(binds: &mut BindMap<MouseButton, H, B>, callback: F)
        requires
            forall|k: MouseButton| callback.requires((k,)),
        ensures
            forall|k: MouseButton| k is OtherButton ==> #[trigger] kept(old(binds)@, final(binds)@, k),
            forall|k: MouseButton|
                !(k is OtherButton) ==> final(binds)@.contains_key(k) && made_for_button(callback, k, final(binds)@[k]),
    {
        let keys = MouseButton::all();
        let n: usize = keys.len();
        let mut i: usize = 0;
        while i < n
            invariant
                i <= n == keys@.len(),
                forall|k: MouseButton| callback.requires((k,)),
                forall|k: MouseButton|
                    !(k is OtherButton) ==> 0 <= #[trigger] k.ordinal() < n && keys@[k.ordinal()] == k,
                forall|j: int| 0 <= j < n ==> !(#[trigger] keys@[j] is OtherButton) && keys@[j].ordinal() == j,
                forall|k: MouseButton| k is OtherButton ==> #[trigger] kept(old(binds)@, binds@, k),
                forall|j: int|
                    0 <= j < i ==> binds@.contains_key(#[trigger] keys@[j]) && made_for_button(
                        callback,
                        keys@[j],
                        binds@[keys@[j]],
                    ),
            decreases n - i,
        {
            let key = keys[i];
            let handler = callback(key);
            let ghost before = binds@;
            binds.insert(key, Bind::NormalBind(handler));
            proof {
                assert forall|k: MouseButton| k is OtherButton implies #[trigger] kept(old(binds)@, binds@, k) by {
                    assert(kept(old(binds)@, before, k));
                    assert(k != key);
                }
                assert forall|j: int| 0 <= j < i + 1 implies binds@.contains_key(#[trigger] keys@[j])
                    && made_for_button(callback, keys@[j], binds@[keys@[j]]) by {
                    if j < i {
                        assert(keys@[j].ordinal() == j);
                        assert(keys@[i as int].ordinal() == i);
                        assert(keys@[j] != key);
                        assert(before.contains_key(keys@[j]));
                    }
                }
            }
            i = i + 1;
        }
        proof {
            assert forall|k: MouseButton| !(k is OtherButton) implies final(binds)@.contains_key(k) && made_for_button(
                callback,
                k,
                final(binds)@[k],
            ) by {
                let j = k.ordinal();
                assert(keys@[j] == k);
            }
        }
    }

    /// Takes the bind of this button away.
    pub fn unbind<H, B>(self, binds: &mut BindMap<MouseButton, H, B>)
        ensures
            final(binds)@ == old(binds)@.remove(self),
    {
        binds.remove(&self);
    }
}

} // verus!

//! The server's table of handlers, one per method name.
use crate::api::{Error, IpcAddress};
use vstd::prelude::*;

verus! {

/// The map that a list of (method, handler) entries stands for.
pub open spec fn table_view<H>(entries: Seq<(String, H)>) -> Map<Seq<char>, H>
    decreases entries.len(),
{
    if entries.len() == 0 {
        Map::empty()
    } else {
        table_view(entries.drop_last()).insert(entries.last().0@, entries.last().1)
    }
}

/// No method name occurs twice in the entries.
pub open spec fn keys_distinct<H>(entries: Seq<(String, H)>) -> bool {
    forall|i: int, j: int|
        0 <= i < j < entries.len() ==> #[trigger] entries[i].0@ != #[trigger] entries[j].0@
}

proof fn lemma_table_dom<H>(entries: Seq<(String, H)>, key: Seq<char>)
    ensures
        table_view(entries).dom().contains(key) <==> exists|i: int|
            0 <= i < entries.len() && #[trigger] entries[i].0@ == key,
    decreases entries.len(),
{
    if entries.len() > 0 {
        let init = entries.drop_last();
        lemma_table_dom(init, key);
        if table_view(init).dom().contains(key) {
            let i = choose|i: int| 0 <= i < init.len() && #[trigger] init[i].0@ == key;
            assert(entries[i].0@ == key);
        }
        if exists|i: int| 0 <= i < entries.len() && #[trigger] entries[i].0@ == key {
            let i = choose|i: int| 0 <= i < entries.len() && #[trigger] entries[i].0@ == key;
            if i < entries.len() - 1 {
                assert(init[i].0@ == key);
            }
        }
    }
}

proof fn lemma_table_entry<H>(entries: Seq<(String, H)>, i: int)
    requires
        keys_distinct(entries),
        0 <= i < entries.len(),
    ensures
        table_view(entries).dom().contains(entries[i].0@),
        table_view(entries)[entries[i].0@] == entries[i].1,
    decreases entries.len(),
{
    let init = entries.drop_last();
    if i < entries.len() - 1 {
        assert(init[i] == entries[i]);
        assert(keys_distinct(init));
        lemma_table_entry(init, i);
        assert(entries.last().0@ != entries[i].0@);
    }
}

proof fn lemma_table_update<H>(entries: Seq<(String, H)>, i: int, entry: (String, H))
    requires
        keys_distinct(entries),
        0 <= i < entries.len(),
        entry.0@ == entries[i].0@,
    ensures
        keys_distinct(entries.update(i, entry)),
        table_view(entries.update(i, entry)) == table_view(entries).insert(entry.0@, entry.1),
    decreases entries.len(),
{
    let updated = entries.update(i, entry);
    assert forall|a: int, b: int| 0 <= a < b < updated.len() implies #[trigger] updated[a].0@
        != #[trigger] updated[b].0@ by {
        assert(entries[a].0@ != entries[b].0@);
    }
    let init = entries.drop_last();
    if i == entries.len() - 1 {
        assert(updated.drop_last() =~= init);
        assert(table_view(updated) =~= table_view(entries).insert(entry.0@, entry.1));
    } else {
        assert(keys_distinct(init));
        lemma_table_update(init, i, entry);
        assert(updated.drop_last() =~= init.update(i, entry));
        assert(entries.last().0@ != entry.0@);
        assert(table_view(updated) =~= table_view(entries).insert(entry.0@, entry.1));
    }
}

/// The server's runtime state: the address it serves and the handler
/// registered under each method name. The handler type is left open: the
/// runtime only stores handlers and hands back the one a request names.
pub struct ServerRuntime<H> {
    _addr: IpcAddress,
    handlers: Vec<(String, H)>,
}

impl<H> ServerRuntime<H> {
    #[verifier::type_invariant]
    spec fn methods_unique(self) -> bool {
        keys_distinct(self.handlers@)
    }

    /// The registered handlers, by method name.
    pub closed spec fn handler_map(self) -> Map<Seq<char>, H> {
        table_view(self.handlers@)
    }

    /// The address the runtime was made for.
    pub closed spec fn served_address(self) -> IpcAddress {
        self._addr
    }

    /// A runtime for this address with no handler registered.
    pub fn new(addr: IpcAddress) -> (runtime: Self)
        ensures
            runtime.handler_map() == Map::<Seq<char>, H>::empty(),
            runtime.served_address() == addr,
    {
        ServerRuntime { _addr: addr, handlers: Vec::new() }
    }

    /// Registers `handler` for `method`, replacing any handler registered for
    /// it before. Never fails.
    pub fn register(&mut self, method: &str, handler: H) -> (res: Result<(), Error>)
        ensures
            res is Ok,
            final(self).handler_map() == old(self).handler_map().insert(method@, handler),
            final(self).served_address() == old(self).served_address(),
    {
        proof {
            use_type_invariant(&*self);
        }
        let key = method.to_owned();
        let mut entries: Vec<(String, H)> = Vec::new();
        std::mem::swap(&mut entries, &mut self.handlers);
        let ghost previous = entries@;
        let mut i: usize = 0;
        while i < entries.len()
            invariant
                0 <= i <= entries@.len(),
                entries@ == previous,
                previous == old(self).handlers@,
                self._addr == old(self)._addr,
                keys_distinct(previous),
                key@ == method@,
                forall|j: int| 0 <= j < i ==> #[trigger] previous[j].0@ != method@,
            decreases entries@.len() - i,
        {
            if entries[i].0 == key {
                proof {
                    lemma_table_update(previous, i as int, (key, handler));
                }
                entries.set(i, (key, handler));
                self.handlers = entries;
                return Ok(());
            }
            i = i + 1;
        }
        proof {
            let pushed = previous.push((key, handler));
            assert forall|a: int, b: int| 0 <= a < b < pushed.len() implies #[trigger] pushed[a].0@
                != #[trigger] pushed[b].0@ by {
                if b == previous.len() {
                    assert(previous[a].0@ != method@);
                } else {
                    assert(previous[a].0@ != previous[b].0@);
                }
            }
            assert(pushed.drop_last() =~= previous);
        }
        entries.push((key, handler));
        self.handlers = entries;
        Ok(())
    }

    /// The handler registered for `method`, if any.
    pub fn handler(&self, method: &str) -> (found: Option<&H>)
        ensures
            match found {
                Some(h) => self.handler_map().dom().contains(method@) && self.handler_map()[method@]
                    == *h,
                None => !self.handler_map().dom().contains(method@),
            },
    {
        proof {
            use_type_invariant(self);
        }
        let key = method.to_owned();
        let mut i: usize = 0;
        while i < self.handlers.len()
            invariant
                0 <= i <= self.handlers@.len(),
                keys_distinct(self.handlers@),
                key@ == method@,
                forall|j: int| 0 <= j < i ==> #[trigger] self.handlers@[j].0@ != method@,
            decreases self.handlers@.len() - i,
        {
            if self.handlers[i].0 == key {
                proof {
                    lemma_table_entry(self.handlers@, i as int);
                }
                return Some(&self.handlers[i].1);
            }
            i = i + 1;
        }
        proof {
            lemma_table_dom(self.handlers@, method@);
        }
        None
    }

    /// The address the runtime serves.
    pub fn address(&self) -> (addr: &IpcAddress)
        ensures
            *addr == self.served_address(),
    {
        &self._addr
    }
}

} // verus!

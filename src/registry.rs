use vstd::prelude::*;

verus! {

/// Identifier of a host operation, assigned densely at registration.
pub type OpId = u32;

/// Id of the built-in operation that lists every registered operation.
pub const LIST_OPS_ID: OpId = 0;

/// Name of the built-in operation that lists every registered operation.
pub open spec fn list_ops_name() -> Seq<char> {
    seq!['o', 'p', 's']
}

/// The bytes of a JSON object that maps each name to its id, in the form
/// `serde_json` writes a `Map<String, Value>` holding those entries.
pub uninterp spec fn json_object_of(entries: Seq<(Seq<char>, u32)>) -> Seq<u8>;

/// The view of a list of owned `(name, id)` entries.
pub open spec fn entry_views(entries: Seq<(String, u32)>) -> Seq<(Seq<char>, u32)> {
    entries.map_values(|e: (String, u32)| (e.0@, e.1))
}

/// The `(name, id)` table of a registry whose names are `names`: each name
/// stands with its position.
pub open spec fn op_entries(names: Seq<Seq<char>>) -> Seq<(Seq<char>, u32)> {
    Seq::new(names.len(), |i: int| (names[i], i as u32))
}

/// The discovery reply of a registry whose names are `names`.
pub open spec fn discovery_bytes(names: Seq<Seq<char>>) -> Seq<u8> {
    json_object_of(op_entries(names))
}

/// Relies on `serde_json::Value::to_string` over an object built from the
/// entries: the compact JSON text of that object, which depends on the
/// entries alone.
#[verifier::external_body]
fn json_object_bytes(entries: &Vec<(String, u32)>) -> (r: Vec<u8>)
    ensures
        r@ == json_object_of(entry_views(entries@)),
{
    let map: serde_json::Map<String, serde_json::Value> = entries
        .iter()
        .map(|(name, id)| (name.clone(), serde_json::Value::from(*id)))
        .collect();
    serde_json::Value::Object(map).to_string().into_bytes()
}

/// What a registry entry dispatches to: the built-in listing, or a handler
/// supplied by the host.
pub enum Dispatcher<H> {
    ListOps,
    Handler(H),
}

/// Why a registration was refused.
#[derive(Debug, Clone, Copy, PartialEq, Eq, Structural)]
pub enum RegisterError {
    /// An operation of that name is registered already.
    AlreadyRegistered,
    /// Every id that an `OpId` can hold is taken.
    IdsExhausted,
}

/// Maps operation names to dense ids and ids to their dispatchers.
pub struct OpRegistry<H> {
    dispatchers: Vec<Dispatcher<H>>,
    names: Vec<String>,
}

impl<H> OpRegistry<H> {
    /// The registered names, in the order of their ids.
    pub closed spec fn names(&self) -> Seq<Seq<char>> {
        self.names@.map_values(|s: String| s@)
    }

    /// The dispatchers, in the order of their ids.
    pub closed spec fn dispatchers(&self) -> Seq<Dispatcher<H>> {
        self.dispatchers@
    }

    /// Names are unique, one dispatcher stands with each name, and id 0 is
    /// the built-in listing.
    pub open spec fn wf(&self) -> bool {
        &&& self.names().len() == self.dispatchers().len()
        &&& 1 <= self.names().len() <= u32::MAX as int + 1
        &&& self.names()[0] == list_ops_name()
        &&& self.dispatchers()[0] is ListOps
        &&& forall|i: int| 1 <= i < self.dispatchers().len() ==> self.dispatchers()[i] is Handler
        &&& forall|i: int, j: int|
            0 <= i < j < self.names().len() ==> self.names()[i] != self.names()[j]
    }

    /// The id under which `name` is registered, if it is.
    pub open spec fn spec_id_of(&self, name: Seq<char>) -> Option<OpId> {
        if exists|i: int| 0 <= i < self.names().len() && self.names()[i] == name {
            Some((choose|i: int| 0 <= i < self.names().len() && self.names()[i] == name) as u32)
        } else {
            None
        }
    }

    /// A registry that holds the built-in listing under id 0 and nothing else.
    pub fn new() -> (r: Self)
        ensures
            r.wf(),
            r.names() == seq![list_ops_name()],
    {
        let mut names: Vec<String> = Vec::new();
        proof {
            reveal_strlit("ops");
            assert("ops"@ =~= list_ops_name());
        }
        names.push("ops".to_owned());
        let mut dispatchers: Vec<Dispatcher<H>> = Vec::new();
        dispatchers.push(Dispatcher::ListOps);
        let r = OpRegistry { dispatchers, names };
        assert(r.names() =~= seq![list_ops_name()]);
        r
    }

    /// The number of registered operations, the built-in one included.
    pub fn len(&self) -> (r: usize)
        requires
            self.wf(),
        ensures
            r == self.names().len(),
    {
        self.names.len()
    }

    /// Looks a name up in the table.
    pub fn id_of(&self, name: &str) -> (r: Option<OpId>)
        requires
            self.wf(),
        ensures
            r == self.spec_id_of(name@),
            r matches Some(id) ==> id < self.names().len() && self.names()[id as int] == name@,
    {
        let owned = name.to_owned();
        let mut i: usize = 0;
        while i < self.names.len()
            invariant
                self.wf(),
                owned@ == name@,
                0 <= i <= self.names@.len(),
                forall|j: int| 0 <= j < i ==> self.names()[j] != name@,
            decreases self.names@.len() - i,
        {
            if self.names[i] == owned {
                assert(self.names()[i as int] == name@);
                proof {
                    let c = choose|j: int| 0 <= j < self.names().len() && self.names()[j] == name@;
                    assert(c == i) by {
                        if c != i {
                            if c < i {
                                assert(self.names()[c] != self.names()[i as int]);
                            } else {
                                assert(self.names()[i as int] != self.names()[c]);
                            }
                        }
                    }
                }
                return Some(i as u32);
            }
            i = i + 1;
        }
        None
    }

    /// Registers `op` under `name`, with the next free id.
    pub fn register(&mut self, name: &str, op: H) -> (r: Result<OpId, RegisterError>)
        requires
            old(self).wf(),
        ensures
            final(self).wf(),
            old(self).names().contains(name@) ==> r == Err::<OpId, RegisterError>(
                RegisterError::AlreadyRegistered,
            ),
            !old(self).names().contains(name@) && old(self).names().len() > u32::MAX
                ==> r == Err::<OpId, RegisterError>(RegisterError::IdsExhausted),
            r is Err ==> final(self).names() == old(self).names() && final(self).dispatchers()
                == old(self).dispatchers(),
            r matches Ok(id) ==> {
                &&& !old(self).names().contains(name@)
                &&& id == old(self).names().len()
                &&& final(self).names() == old(self).names().push(name@)
                &&& final(self).dispatchers() == old(self).dispatchers().push(
                    Dispatcher::Handler(op),
                )
            },
            !old(self).names().contains(name@) && old(self).names().len() <= u32::MAX ==> r is Ok,
    {
        if let Some(_) = self.id_of(name) {
            return Err(RegisterError::AlreadyRegistered);
        }
        assert(!self.names().contains(name@)) by {
            if self.names().contains(name@) {
                let i = choose|i: int| 0 <= i < self.names().len() && self.names()[i] == name@;
                assert(exists|i: int| 0 <= i < self.names().len() && self.names()[i] == name@);
            }
        }
        let len = self.names.len();
        if len > u32::MAX as usize {
            return Err(RegisterError::IdsExhausted);
        }
        let op_id = len as u32;
        self.names.push(name.to_owned());
        self.dispatchers.push(Dispatcher::Handler(op));
        assert(self.names() =~= old(self).names().push(name@));
        Ok(op_id)
    }

    /// The dispatcher registered under `op_id`, if any.
    pub fn get(&self, op_id: OpId) -> (r: Option<&Dispatcher<H>>)
        requires
            self.wf(),
        ensures
            op_id < self.dispatchers().len() ==> r == Some(&self.dispatchers()[op_id as int]),
            op_id >= self.dispatchers().len() ==> r is None,
    {
        if (op_id as usize) < self.dispatchers.len() {
            Some(&self.dispatchers[op_id as usize])
        } else {
            None
        }
    }

    /// The discovery reply: every name with its id, as JSON bytes.
    pub fn json_map(&self) -> (r: Vec<u8>)
        requires
            self.wf(),
        ensures
            r@ == discovery_bytes(self.names()),
    {
        let mut entries: Vec<(String, u32)> = Vec::new();
        let mut i: usize = 0;
        while i < self.names.len()
            invariant
                self.wf(),
                0 <= i <= self.names@.len(),
                entries@.len() == i,
                entry_views(entries@) =~= op_entries(self.names()).take(i as int),
            decreases self.names@.len() - i,
        {
            let name = self.names[i].clone();
            let ghost prev = entries@;
            entries.push((name, i as u32));
            proof {
                assert(entries@ == prev.push((name, i as u32)));
                assert(name@ == self.names()[i as int]);
                assert(entry_views(entries@)[i as int] == op_entries(self.names())[i as int]);
                assert(entry_views(entries@) =~= op_entries(self.names()).take(i + 1));
            }
            i = i + 1;
        }
        assert(op_entries(self.names()).take(i as int) =~= op_entries(self.names()));
        json_object_bytes(&entries)
    }
}

/// Registering fresh names one after another continues the ids densely: when
/// `after` holds the names of `before` followed by `added` (as a run of
/// successful `register` calls leaves it), the `i`-th added name has the id
/// `before.names().len() + i`.
pub proof fn lemma_ids_continue<H>(before: &OpRegistry<H>, after: &OpRegistry<H>, added: Seq<Seq<char>>)
    requires
        before.wf(),
        after.wf(),
        after.names() == before.names() + added,
    ensures
        forall|i: int|
            0 <= i < added.len() ==> after.spec_id_of(#[trigger] added[i]) == Some(
                (before.names().len() + i) as u32,
            ),
{
    lemma_ids_dense(after);
    assert forall|i: int| 0 <= i < added.len() implies after.spec_id_of(#[trigger] added[i]) == Some(
        (before.names().len() + i) as u32,
    ) by {
        assert(after.names()[before.names().len() + i] == added[i]);
    }
}

/// Ids are dense and follow the order of registration: the name at position
/// `i` of the registry (the built-in listing first) is found under id `i`,
/// and under no other.
pub proof fn lemma_ids_dense<H>(reg: &OpRegistry<H>)
    requires
        reg.wf(),
    ensures
        forall|i: int| 0 <= i < reg.names().len() ==> reg.spec_id_of(reg.names()[i]) == Some(i as u32),
        reg.spec_id_of(list_ops_name()) == Some(LIST_OPS_ID),
{
    assert forall|i: int| 0 <= i < reg.names().len() implies reg.spec_id_of(reg.names()[i]) == Some(
        i as u32,
    ) by {
        let name = reg.names()[i];
        assert(exists|j: int| 0 <= j < reg.names().len() && reg.names()[j] == name);
        let c = choose|j: int| 0 <= j < reg.names().len() && reg.names()[j] == name;
        if c != i {
            if c < i {
                assert(reg.names()[c] != reg.names()[i]);
            } else {
                assert(reg.names()[i] != reg.names()[c]);
            }
        }
    }
    assert(reg.names()[0] == list_ops_name());
}

} // verus!

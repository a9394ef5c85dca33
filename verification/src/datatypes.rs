//! A small companion contract that exercises the value kinds the host
//! environment can move in and out of a contract: primitives, big numbers,
//! buffers, options, arrays and the keyed stores.  Host-managed values are
//! modelled as plain ones: buffers and token identifiers as byte vectors,
//! big integers as 128-bit integers, addresses as numeric ids the host
//! hands in at construction.

use vstd::prelude::*;

verus! {

/// Whether the contract is under maintenance.
#[derive(Clone, Copy, PartialEq, Eq, Structural, Debug)]
pub enum MaintenanceStatus {
    Operational,
    InMaintenance,
}

/// One value of every primitive kind.
#[derive(Clone, Copy, PartialEq, Eq, Structural, Debug)]
pub struct PrimitiveDataTypes {
    pub boolean: bool,
    pub unsigned8: u8,
    pub unsigned16: u16,
    pub unsigned32: u32,
    pub unsigned64: u64,
    pub unsigned_size: usize,
    pub signed8: i8,
    pub signed16: i16,
    pub signed32: i32,
    pub signed64: i64,
    pub signed_size: isize,
    pub enumeration: MaintenanceStatus,
}

/// A nested value: a big unsigned integer beside an address.
#[derive(Clone, Copy, PartialEq, Eq, Structural, Debug)]
pub struct SubType {
    pub big_unsigned_integer: u128,
    pub address: u64,
}

/// A payment of one concrete token: identifier, nonce and amount.
#[derive(Clone, PartialEq, Eq, Debug)]
pub struct TokenPayment {
    pub token_identifier: Vec<u8>,
    pub token_nonce: u64,
    pub amount: u128,
}

/// A payment of either the native currency (no identifier) or a token.
#[derive(Clone, PartialEq, Eq, Debug)]
pub struct EgldOrEsdtPayment {
    pub token_identifier: Option<Vec<u8>>,
    pub token_nonce: u64,
    pub amount: u128,
}

/// One value of every host-managed kind, in its plain model.
#[derive(Clone, PartialEq, Eq, Debug)]
pub struct ManagedDataTypes {
    pub managed_buffer: Vec<u8>,
    pub big_unsigned_integer: u128,
    pub big_integer: i128,
    pub address: u64,
    pub token_identifier: Vec<u8>,
    pub egld_or_esdt_token_identifier: Option<Vec<u8>>,
    pub esdt_token_payment: TokenPayment,
    pub egld_or_esdt_token_payment: EgldOrEsdtPayment,
}

/// Optional values, set and unset, simple and nested.
#[derive(Clone, Copy, PartialEq, Eq, Debug)]
pub struct OptionDataTypes {
    pub option_of_biguint_set: Option<u128>,
    pub option_of_biguint_not_set: Option<u128>,
    pub option_of_subtype_set: Option<SubType>,
    pub option_of_subtype_not_set: Option<SubType>,
}

/// Sequence-like values: growable vectors, fixed arrays and tuples.
#[derive(PartialEq, Eq, Debug)]
pub struct ArrayDataTypes {
    pub managed_vec_of_u16: Vec<u16>,
    pub managed_vec_of_subtype: Vec<SubType>,
    pub fixed_array: [u8; 5],
    pub fixed_array_complex: [SubType; 3],
    pub tuples: (u16, u32),
    pub tuples_complex: (u32, SubType),
}

/// A custom struct carried as-is.
#[derive(Clone, Copy, PartialEq, Eq, Structural, Debug)]
pub struct OtherDataTypes {
    pub custom_type: SubType,
}

/// The bytes of the sample token identifier the contract answers with.
pub open spec fn sample_token_id() -> Seq<u8> {
    seq![65u8, 66u8, 67u8, 68u8, 69u8, 70u8, 45u8, 49u8, 50u8, 51u8, 52u8, 53u8, 54u8]
}

/// The contract interface: echo endpoints for every value kind, and
/// constant samples built around the two addresses the host gives the
/// contract.
pub trait DataTypes: Sized {
    /// The contract's own address, as the host handed it in.
    spec fn sc_address(&self) -> u64;

    /// The contract owner's address, as the host handed it in.
    spec fn owner_address(&self) -> u64;

    /// A sample of every primitive kind.
    fn get_primitive_datatypes(&self) -> (r: PrimitiveDataTypes)
        ensures
            r == (PrimitiveDataTypes {
                boolean: true,
                unsigned8: 10u8,
                unsigned16: 1000u16,
                unsigned32: 100000u32,
                unsigned64: 1000000000000000000u64,
                unsigned_size: 200000usize,
                signed8: 5i8,
                signed16: 500i16,
                signed32: 50000i32,
                signed64: 500000000000000000i64,
                signed_size: 300000isize,
                enumeration: MaintenanceStatus::InMaintenance,
            }),
    ;

    /// A sample of every host-managed kind.
    fn get_managed_datatypes(&self) -> (r: ManagedDataTypes)
        ensures
            r.managed_buffer@ == seq![97u8, 98u8, 99u8, 100u8],
            r.big_unsigned_integer == 20000000000u128,
            r.big_integer == 10000000000i128,
            r.address == self.sc_address(),
            r.token_identifier@ == sample_token_id(),
            r.egld_or_esdt_token_identifier matches Some(id) && id@ == sample_token_id(),
            r.esdt_token_payment.token_identifier@ == sample_token_id(),
            r.esdt_token_payment.token_nonce == 120u64,
            r.esdt_token_payment.amount == 1000000u128,
            r.egld_or_esdt_token_payment.token_identifier matches Some(id) && id@
                == sample_token_id(),
            r.egld_or_esdt_token_payment.token_nonce == 360u64,
            r.egld_or_esdt_token_payment.amount == 2000000u128,
    ;

    /// A sample of optional values, set and unset.
    fn get_option_datatypes(&self) -> (r: OptionDataTypes)
        ensures
            r.option_of_biguint_set == Some(420u128),
            r.option_of_biguint_not_set is None,
            r.option_of_subtype_set == Some(
                (SubType { big_unsigned_integer: 12u128, address: self.sc_address() }),
            ),
            r.option_of_subtype_not_set is None,
    ;

    /// A sample of vectors, arrays and tuples.
    fn get_array_datatypes(&self) -> (r: ArrayDataTypes)
        ensures
            r.managed_vec_of_u16@ == seq![12u16, 26u16, 3u16],
            r.managed_vec_of_subtype@ == seq![
                (SubType { big_unsigned_integer: 14u128, address: self.sc_address() }),
                (SubType { big_unsigned_integer: 133u128, address: self.owner_address() }),
            ],
            r.fixed_array@ == seq![1u8, 2u8, 3u8, 4u8, 5u8],
            r.fixed_array_complex@ == seq![
                (SubType { big_unsigned_integer: 100000000u128, address: self.sc_address() }),
                (SubType { big_unsigned_integer: 200000000u128, address: self.sc_address() }),
                (SubType { big_unsigned_integer: 300000000u128, address: self.sc_address() }),
            ],
            r.tuples == (10u16, 300u32),
            r.tuples_complex == (
                20u32,
                (SubType { big_unsigned_integer: 300000000u128, address: self.sc_address() }),
            ),
    ;

    /// A sample of a custom struct.
    fn get_other_datatypes(&self) -> (r: OtherDataTypes)
        ensures
            r.custom_type == (SubType {
                big_unsigned_integer: 100000000u128,
                address: self.sc_address(),
            }),
    ;

    /// Echoes primitives back unchanged.
    fn set_primitive_datatypes(&self, data: PrimitiveDataTypes) -> (r: PrimitiveDataTypes)
        ensures
            r == data,
    ;

    /// Echoes host-managed values back unchanged.
    fn set_managed_datatypes(&self, data: ManagedDataTypes) -> (r: ManagedDataTypes)
        ensures
            r == data,
    ;

    /// Echoes optional values back unchanged.
    fn set_option_datatypes(&self, data: OptionDataTypes) -> (r: OptionDataTypes)
        ensures
            r == data,
    ;

    /// Echoes vectors, arrays and tuples back unchanged.
    fn set_array_datatypes(&self, data: ArrayDataTypes) -> (r: ArrayDataTypes)
        ensures
            r == data,
    ;

    /// Echoes a custom struct back unchanged.
    fn set_other_datatypes(&self, data: OtherDataTypes) -> (r: OtherDataTypes)
        ensures
            r == data,
    ;

    /// Echoes an optional argument back unchanged.
    fn get_optional_value_1st_arg(&self, optional_value_arg: Option<u8>) -> (r: Option<u8>)
        ensures
            r == optional_value_arg,
    ;

    /// Pairs a required argument with an optional one, unchanged.
    fn get_optional_value_2nd_arg(&self, required_arg: u8, optional_value_arg: Option<u8>) -> (r: (
        u8,
        Option<u8>,
    ))
        ensures
            r == (required_arg, optional_value_arg),
    ;

    /// A sample vector of small numbers.
    fn get_sample_mvec(&self) -> (r: Vec<u16>)
        ensures
            r@ == seq![12u16, 26u16, 3u16],
    ;

    /// A sample vector of custom structs, one for the contract, one for
    /// its owner.
    fn get_sample_mvec_complex(&self) -> (r: Vec<SubType>)
        ensures
            r@ == seq![
                (SubType { big_unsigned_integer: 14u128, address: self.sc_address() }),
                (SubType { big_unsigned_integer: 133u128, address: self.owner_address() }),
            ],
    ;
}

/// No two elements of the sequence are equal.
pub open spec fn distinct_u64(s: Seq<u64>) -> bool {
    forall|a: int, b: int| 0 <= a < b < s.len() ==> s[a] != s[b]
}

/// No two pairs of the sequence share a key.
pub open spec fn distinct_keys(s: Seq<(u8, u16)>) -> bool {
    forall|a: int, b: int| 0 <= a < b < s.len() ==> (#[trigger] s[a]).0 != (#[trigger] s[b]).0
}

/// Appends `x` unless it is already present; answers whether it appended.
fn insert_unique(v: &mut Vec<u64>, x: u64) -> (r: bool)
    requires
        distinct_u64(old(v)@),
    ensures
        distinct_u64(final(v)@),
        r == !old(v)@.contains(x),
        r ==> final(v)@ == old(v)@.push(x),
        !r ==> final(v)@ == old(v)@,
{
    let n = v.len();
    let mut i: usize = 0;
    while i < n
        invariant
            i <= n,
            n == v@.len(),
            v@ == old(v)@,
            distinct_u64(v@),
            forall|j: int| 0 <= j < i ==> v@[j] != x,
        decreases n - i,
    {
        if v[i] == x {
            assert(v@.contains(x));
            return false;
        }
        i = i + 1;
    }
    assert(!v@.contains(x));
    v.push(x);
    true
}

/// Whether some pair of the sequence binds `key`.
pub open spec fn has_key(s: Seq<(u8, u16)>, key: u8) -> bool {
    exists|j: int| 0 <= j < s.len() && (#[trigger] s[j]).0 == key
}

/// Binds `key` to `value`, replacing and answering any value bound before.
fn upsert_pair(v: &mut Vec<(u8, u16)>, key: u8, value: u16) -> (r: Option<u16>)
    requires
        distinct_keys(old(v)@),
    ensures
        distinct_keys(final(v)@),
        !has_key(old(v)@, key) ==> (r is None && final(v)@ == old(v)@.push((key, value))),
        has_key(old(v)@, key) ==> (exists|j: int|
            0 <= j < old(v)@.len() && (#[trigger] old(v)@[j]).0 == key && r == Some(old(v)@[j].1)
                && final(v)@ == old(v)@.update(j, (key, value))),
{
    let n = v.len();
    let mut i: usize = 0;
    while i < n
        invariant
            i <= n,
            n == v@.len(),
            v@ == old(v)@,
            distinct_keys(v@),
            forall|j: int| 0 <= j < i ==> (#[trigger] v@[j]).0 != key,
        decreases n - i,
    {
        let p = v[i];
        if p.0 == key {
            v.set(i, (key, value));
            assert(has_key(old(v)@, key));
            return Some(p.1);
        }
        i = i + 1;
    }
    assert(!has_key(old(v)@, key));
    v.push((key, value));
    None
}

/// A table of 256 zeroes, one slot per possible key.
fn zero_slots() -> (r: Vec<u64>)
    ensures
        r@.len() == 256,
        forall|i: int| 0 <= i < 256 ==> r@[i] == 0u64,
{
    let mut r: Vec<u64> = Vec::new();
    let mut i: usize = 0;
    while i < 256
        invariant
            i <= 256,
            r@.len() == i,
            forall|j: int| 0 <= j < i ==> r@[j] == 0u64,
        decreases 256 - i,
    {
        r.push(0);
        i = i + 1;
    }
    r
}

/// A table of 256 empty element lists, one slot per possible key.
fn empty_u64_slots() -> (r: Vec<Vec<u64>>)
    ensures
        r@.len() == 256,
        forall|i: int| 0 <= i < 256 ==> (#[trigger] r@[i])@.len() == 0,
{
    let mut r: Vec<Vec<u64>> = Vec::new();
    let mut i: usize = 0;
    while i < 256
        invariant
            i <= 256,
            r@.len() == i,
            forall|j: int| 0 <= j < i ==> (#[trigger] r@[j])@.len() == 0,
        decreases 256 - i,
    {
        r.push(Vec::new());
        i = i + 1;
    }
    r
}

/// A table of 256 empty pair lists, one slot per possible key.
fn empty_pair_slots() -> (r: Vec<Vec<(u8, u16)>>)
    ensures
        r@.len() == 256,
        forall|i: int| 0 <= i < 256 ==> (#[trigger] r@[i])@.len() == 0,
{
    let mut r: Vec<Vec<(u8, u16)>> = Vec::new();
    let mut i: usize = 0;
    while i < 256
        invariant
            i <= 256,
            r@.len() == i,
            forall|j: int| 0 <= j < i ==> (#[trigger] r@[j])@.len() == 0,
        decreases 256 - i,
    {
        r.push(Vec::new());
        i = i + 1;
    }
    r
}

/// A copy of a list of numbers.
fn copy_u64_vec(src: &Vec<u64>) -> (r: Vec<u64>)
    ensures
        r@ == src@,
{
    let n = src.len();
    let mut r: Vec<u64> = Vec::new();
    let mut i: usize = 0;
    while i < n
        invariant
            i <= n,
            n == src@.len(),
            r@ == src@.take(i as int),
        decreases n - i,
    {
        r.push(src[i]);
        i = i + 1;
        proof {
            assert(src@.take(i as int).drop_last() =~= src@.take(i as int - 1));
        }
    }
    proof {
        assert(src@.take(n as int) =~= src@);
    }
    r
}

/// A copy of a list of pairs.
fn copy_pair_vec(src: &Vec<(u8, u16)>) -> (r: Vec<(u8, u16)>)
    ensures
        r@ == src@,
{
    let n = src.len();
    let mut r: Vec<(u8, u16)> = Vec::new();
    let mut i: usize = 0;
    while i < n
        invariant
            i <= n,
            n == src@.len(),
            r@ == src@.take(i as int),
        decreases n - i,
    {
        r.push(src[i]);
        i = i + 1;
        proof {
            assert(src@.take(i as int).drop_last() =~= src@.take(i as int - 1));
        }
    }
    proof {
        assert(src@.take(n as int) =~= src@);
    }
    r
}

/// The pair list stored under `input`.
pub open spec fn pairs_of(s: DataTypesState, input: u8) -> Seq<(u8, u16)> {
    (s.map_values@[input as int])@
}

/// The value list stored under `input`.
pub open spec fn values_of(s: DataTypesState, input: u8) -> Seq<u64> {
    (s.vec_values@[input as int])@
}

/// The element set stored under `input`, in insertion order.
pub open spec fn elements_of(s: DataTypesState, input: u8) -> Seq<u64> {
    (s.set_values@[input as int])@
}

/// The unordered element set stored under `input`, in insertion order.
pub open spec fn unordered_elements_of(s: DataTypesState, input: u8) -> Seq<u64> {
    (s.unordered_set_values@[input as int])@
}

/// The contract's state: the two addresses the host handed in, and five
/// keyed stores, one slot per possible 8-bit key.  The element and pair
/// stores keep insertion order and hold no duplicates.
pub struct DataTypesState {
    pub sc_address: u64,
    pub owner_address: u64,
    pub single_values: Vec<u64>,
    pub vec_values: Vec<Vec<u64>>,
    pub set_values: Vec<Vec<u64>>,
    pub unordered_set_values: Vec<Vec<u64>>,
    pub map_values: Vec<Vec<(u8, u16)>>,
}

impl DataTypesState {
    /// The state's invariant: every store has one slot per possible key,
    /// the element stores hold no duplicates, and the pair stores bind
    /// each key at most once.
    pub open spec fn wf(self) -> bool {
        &&& self.single_values@.len() == 256
        &&& self.vec_values@.len() == 256
        &&& self.set_values@.len() == 256
        &&& self.unordered_set_values@.len() == 256
        &&& self.map_values@.len() == 256
        &&& forall|i: int| 0 <= i < 256 ==> distinct_u64((#[trigger] self.set_values@[i])@)
        &&& forall|i: int|
            0 <= i < 256 ==> distinct_u64((#[trigger] self.unordered_set_values@[i])@)
        &&& forall|i: int| 0 <= i < 256 ==> distinct_keys((#[trigger] self.map_values@[i])@)
    }

    /// A fresh state for a contract deployed at `sc_address` by
    /// `owner_address`: every slot empty or zero.
    pub fn new(sc_address: u64, owner_address: u64) -> (s: DataTypesState)
        ensures
            s.wf(),
            s.sc_address == sc_address,
            s.owner_address == owner_address,
            forall|i: int| 0 <= i < 256 ==> s.single_values@[i] == 0u64,
            forall|i: int| 0 <= i < 256 ==> (#[trigger] s.vec_values@[i])@.len() == 0,
            forall|i: int| 0 <= i < 256 ==> (#[trigger] s.set_values@[i])@.len() == 0,
            forall|i: int| 0 <= i < 256 ==> (#[trigger] s.unordered_set_values@[i])@.len() == 0,
            forall|i: int| 0 <= i < 256 ==> (#[trigger] s.map_values@[i])@.len() == 0,
    {
        DataTypesState {
            sc_address,
            owner_address,
            single_values: zero_slots(),
            vec_values: empty_u64_slots(),
            set_values: empty_u64_slots(),
            unordered_set_values: empty_u64_slots(),
            map_values: empty_pair_slots(),
        }
    }

    /// The single value stored under `input`.
    pub fn single_value_mapper(&self, input: u8) -> (r: u64)
        requires
            self.wf(),
        ensures
            r == self.single_values@[input as int],
    {
        self.single_values[input as usize]
    }

    /// A snapshot of the value list stored under `input`.
    pub fn vec_mapper(&self, input: u8) -> (r: Vec<u64>)
        requires
            self.wf(),
        ensures
            r@ == values_of(*self, input),
    {
        copy_u64_vec(&self.vec_values[input as usize])
    }

    /// A snapshot of the element set stored under `input`, in insertion
    /// order.
    pub fn set_mapper(&self, input: u8) -> (r: Vec<u64>)
        requires
            self.wf(),
        ensures
            r@ == elements_of(*self, input),
    {
        copy_u64_vec(&self.set_values[input as usize])
    }

    /// A snapshot of the unordered element set stored under `input`.
    pub fn unordered_set_mapper(&self, input: u8) -> (r: Vec<u64>)
        requires
            self.wf(),
        ensures
            r@ == unordered_elements_of(*self, input),
    {
        copy_u64_vec(&self.unordered_set_values[input as usize])
    }

    /// A snapshot of the key-value pairs stored under `input`, in
    /// insertion order.
    pub fn map_mapper(&self, input: u8) -> (r: Vec<(u8, u16)>)
        requires
            self.wf(),
        ensures
            r@ == pairs_of(*self, input),
    {
        copy_pair_vec(&self.map_values[input as usize])
    }

    /// Stores `value` as the single value under `input`.
    pub fn set_single_value(&mut self, input: u8, value: u64)
        requires
            old(self).wf(),
        ensures
            final(self).wf(),
            final(self).single_values@ == old(self).single_values@.update(input as int, value),
            final(self).sc_address == old(self).sc_address,
            final(self).owner_address == old(self).owner_address,
            final(self).vec_values == old(self).vec_values,
            final(self).set_values == old(self).set_values,
            final(self).unordered_set_values == old(self).unordered_set_values,
            final(self).map_values == old(self).map_values,
    {
        self.single_values.set(input as usize, value);
    }

    /// Appends `value` to the value list under `input`.
    pub fn push_vec_value(&mut self, input: u8, value: u64)
        requires
            old(self).wf(),
        ensures
            final(self).wf(),
            final(self).vec_values@ == old(self).vec_values@.update(
                input as int,
                final(self).vec_values@[input as int],
            ),
            values_of(*final(self), input) == values_of(*old(self), input).push(value),
            final(self).sc_address == old(self).sc_address,
            final(self).owner_address == old(self).owner_address,
            final(self).single_values == old(self).single_values,
            final(self).set_values == old(self).set_values,
            final(self).unordered_set_values == old(self).unordered_set_values,
            final(self).map_values == old(self).map_values,
    {
        let slot = vstd::std_specs::vec::vec_index_mut(&mut self.vec_values, input as usize);
        slot.push(value);
    }

    /// Adds `value` to the element set under `input`, unless present;
    /// answers whether it was added.
    pub fn insert_set_value(&mut self, input: u8, value: u64) -> (r: bool)
        requires
            old(self).wf(),
        ensures
            final(self).wf(),
            final(self).set_values@ == old(self).set_values@.update(
                input as int,
                final(self).set_values@[input as int],
            ),
            r == !elements_of(*old(self), input).contains(value),
            r ==> elements_of(*final(self), input) == elements_of(*old(self), input).push(value),
            !r ==> elements_of(*final(self), input) == elements_of(*old(self), input),
            final(self).sc_address == old(self).sc_address,
            final(self).owner_address == old(self).owner_address,
            final(self).single_values == old(self).single_values,
            final(self).vec_values == old(self).vec_values,
            final(self).unordered_set_values == old(self).unordered_set_values,
            final(self).map_values == old(self).map_values,
    {
        let slot = vstd::std_specs::vec::vec_index_mut(&mut self.set_values, input as usize);
        insert_unique(slot, value)
    }

    /// Adds `value` to the unordered element set under `input`, unless
    /// present; answers whether it was added.
    pub fn insert_unordered_set_value(&mut self, input: u8, value: u64) -> (r: bool)
        requires
            old(self).wf(),
        ensures
            final(self).wf(),
            final(self).unordered_set_values@ == old(self).unordered_set_values@.update(
                input as int,
                final(self).unordered_set_values@[input as int],
            ),
            r == !unordered_elements_of(*old(self), input).contains(value),
            r ==> unordered_elements_of(*final(self), input) == unordered_elements_of(
                *old(self),
                input,
            ).push(value),
            !r ==> unordered_elements_of(*final(self), input) == unordered_elements_of(
                *old(self),
                input,
            ),
            final(self).sc_address == old(self).sc_address,
            final(self).owner_address == old(self).owner_address,
            final(self).single_values == old(self).single_values,
            final(self).vec_values == old(self).vec_values,
            final(self).set_values == old(self).set_values,
            final(self).map_values == old(self).map_values,
    {
        let slot = vstd::std_specs::vec::vec_index_mut(
            &mut self.unordered_set_values,
            input as usize,
        );
        insert_unique(slot, value)
    }

    /// Binds `key` to `value` in the pair store under `input`, replacing
    /// and answering any value bound before.
    pub fn insert_map_value(&mut self, input: u8, key: u8, value: u16) -> (r: Option<u16>)
        requires
            old(self).wf(),
        ensures
            final(self).wf(),
            final(self).map_values@ == old(self).map_values@.update(
                input as int,
                final(self).map_values@[input as int],
            ),
            !has_key(pairs_of(*old(self), input), key) ==> (r is None && pairs_of(
                *final(self),
                input,
            ) == pairs_of(*old(self), input).push((key, value))),
            has_key(pairs_of(*old(self), input), key) ==> (exists|j: int|
                0 <= j < pairs_of(*old(self), input).len() && (#[trigger] pairs_of(
                    *old(self),
                    input,
                )[j]).0 == key && r == Some(pairs_of(*old(self), input)[j].1) && pairs_of(
                    *final(self),
                    input,
                ) == pairs_of(*old(self), input).update(j, (key, value))),
            final(self).sc_address == old(self).sc_address,
            final(self).owner_address == old(self).owner_address,
            final(self).single_values == old(self).single_values,
            final(self).vec_values == old(self).vec_values,
            final(self).set_values == old(self).set_values,
            final(self).unordered_set_values == old(self).unordered_set_values,
    {
        let slot = vstd::std_specs::vec::vec_index_mut(&mut self.map_values, input as usize);
        upsert_pair(slot, key, value)
    }

    /// Seeds the stores with the contract's sample contents: two single
    /// values, two value lists, two element sets of each kind and two
    /// pair stores, everything else empty.
    pub fn init(&mut self)
        ensures
            final(self).wf(),
            final(self).sc_address == old(self).sc_address,
            final(self).owner_address == old(self).owner_address,
            final(self).single_values@[0] == 1u64,
            final(self).single_values@[1] == 2u64,
            forall|i: int| 2 <= i < 256 ==> final(self).single_values@[i] == 0u64,
            values_of(*final(self), 0) == seq![1u64, 2u64],
            values_of(*final(self), 1) == seq![10u64, 11u64],
            forall|i: int| 2 <= i < 256 ==> (#[trigger] final(self).vec_values@[i])@.len() == 0,
            elements_of(*final(self), 0) == seq![1u64, 2u64, 3u64],
            elements_of(*final(self), 1) == seq![5u64, 6u64, 7u64],
            forall|i: int| 2 <= i < 256 ==> (#[trigger] final(self).set_values@[i])@.len() == 0,
            unordered_elements_of(*final(self), 0) == seq![1u64, 2u64],
            unordered_elements_of(*final(self), 1) == seq![5u64, 6u64],
            forall|i: int|
                2 <= i < 256 ==> (#[trigger] final(self).unordered_set_values@[i])@.len() == 0,
            pairs_of(*final(self), 0) == seq![(0u8, 1u16), (1u8, 2u16)],
            pairs_of(*final(self), 1) == seq![(1u8, 10u16), (2u8, 11u16)],
            forall|i: int| 2 <= i < 256 ==> (#[trigger] final(self).map_values@[i])@.len() == 0,
    {
        self.single_values = zero_slots();
        self.vec_values = empty_u64_slots();
        self.set_values = empty_u64_slots();
        self.unordered_set_values = empty_u64_slots();
        self.map_values = empty_pair_slots();
        self.set_single_value(0, 1);
        self.set_single_value(1, 2);
        self.push_vec_value(0, 1);
        self.push_vec_value(0, 2);
        self.push_vec_value(1, 10);
        self.push_vec_value(1, 11);
        let _ = self.insert_set_value(0, 1);
        let _ = self.insert_set_value(0, 2);
        let _ = self.insert_set_value(0, 3);
        let _ = self.insert_set_value(1, 5);
        let _ = self.insert_set_value(1, 6);
        let _ = self.insert_set_value(1, 7);
        let _ = self.insert_unordered_set_value(0, 1);
        let _ = self.insert_unordered_set_value(0, 2);
        let _ = self.insert_unordered_set_value(1, 5);
        let _ = self.insert_unordered_set_value(1, 6);
        let _ = self.insert_map_value(0, 0, 1);
        let _ = self.insert_map_value(0, 1, 2);
        let _ = self.insert_map_value(1, 1, 10);
        let _ = self.insert_map_value(1, 2, 11);
        proof {
            assert((self.vec_values@[0])@ =~= seq![1u64, 2u64]);
            assert((self.vec_values@[1])@ =~= seq![10u64, 11u64]);
            assert((self.set_values@[0])@ =~= seq![1u64, 2u64, 3u64]);
            assert((self.set_values@[1])@ =~= seq![5u64, 6u64, 7u64]);
            assert((self.unordered_set_values@[0])@ =~= seq![1u64, 2u64]);
            assert((self.unordered_set_values@[1])@ =~= seq![5u64, 6u64]);
            assert((self.map_values@[0])@ =~= seq![(0u8, 1u16), (1u8, 2u16)]);
            assert((self.map_values@[1])@ =~= seq![(1u8, 10u16), (2u8, 11u16)]);
        }
    }
}

/// The sample token identifier as a byte vector.
fn sample_token_vec() -> (r: Vec<u8>)
    ensures
        r@ == sample_token_id(),
{
    let mut r: Vec<u8> = Vec::new();
    r.push(65);
    r.push(66);
    r.push(67);
    r.push(68);
    r.push(69);
    r.push(70);
    r.push(45);
    r.push(49);
    r.push(50);
    r.push(51);
    r.push(52);
    r.push(53);
    r.push(54);
    proof {
        assert(r@ =~= sample_token_id());
    }
    r
}

impl DataTypes for DataTypesState {
    open spec fn sc_address(&self) -> u64 {
        self.sc_address
    }

    open spec fn owner_address(&self) -> u64 {
        self.owner_address
    }

    fn get_primitive_datatypes(&self) -> (r: PrimitiveDataTypes) {
        PrimitiveDataTypes {
            boolean: true,
            unsigned8: 10,
            unsigned16: 1000,
            unsigned32: 100000,
            unsigned64: 1000000000000000000,
            unsigned_size: 200000,
            signed8: 5,
            signed16: 500,
            signed32: 50000,
            signed64: 500000000000000000,
            signed_size: 300000,
            enumeration: MaintenanceStatus::InMaintenance,
        }
    }

    fn get_managed_datatypes(&self) -> (r: ManagedDataTypes) {
        let mut buffer: Vec<u8> = Vec::new();
        buffer.push(97);
        buffer.push(98);
        buffer.push(99);
        buffer.push(100);
        proof {
            assert(buffer@ =~= seq![97u8, 98u8, 99u8, 100u8]);
        }
        ManagedDataTypes {
            managed_buffer: buffer,
            big_unsigned_integer: 20000000000,
            big_integer: 10000000000,
            address: self.sc_address,
            token_identifier: sample_token_vec(),
            egld_or_esdt_token_identifier: Some(sample_token_vec()),
            esdt_token_payment: TokenPayment {
                token_identifier: sample_token_vec(),
                token_nonce: 120,
                amount: 1000000,
            },
            egld_or_esdt_token_payment: EgldOrEsdtPayment {
                token_identifier: Some(sample_token_vec()),
                token_nonce: 360,
                amount: 2000000,
            },
        }
    }

    fn get_option_datatypes(&self) -> (r: OptionDataTypes) {
        OptionDataTypes {
            option_of_biguint_set: Some(420),
            option_of_biguint_not_set: None,
            option_of_subtype_set: Some(
                SubType { big_unsigned_integer: 12, address: self.sc_address },
            ),
            option_of_subtype_not_set: None,
        }
    }

    fn get_array_datatypes(&self) -> (r: ArrayDataTypes) {
        let fixed_array: [u8; 5] = [1, 2, 3, 4, 5];
        let fixed_array_complex: [SubType; 3] = [
            SubType { big_unsigned_integer: 100000000, address: self.sc_address },
            SubType { big_unsigned_integer: 200000000, address: self.sc_address },
            SubType { big_unsigned_integer: 300000000, address: self.sc_address },
        ];
        proof {
            assert(fixed_array@ =~= seq![1u8, 2u8, 3u8, 4u8, 5u8]);
            assert(fixed_array_complex@ =~= seq![
                (SubType { big_unsigned_integer: 100000000u128, address: self.sc_address }),
                (SubType { big_unsigned_integer: 200000000u128, address: self.sc_address }),
                (SubType { big_unsigned_integer: 300000000u128, address: self.sc_address }),
            ]);
        }
        ArrayDataTypes {
            managed_vec_of_u16: self.get_sample_mvec(),
            managed_vec_of_subtype: self.get_sample_mvec_complex(),
            fixed_array,
            fixed_array_complex,
            tuples: (10, 300),
            tuples_complex: (
                20,
                SubType { big_unsigned_integer: 300000000, address: self.sc_address },
            ),
        }
    }

    fn get_other_datatypes(&self) -> (r: OtherDataTypes) {
        OtherDataTypes {
            custom_type: SubType { big_unsigned_integer: 100000000, address: self.sc_address },
        }
    }

    fn set_primitive_datatypes(&self, data: PrimitiveDataTypes) -> (r: PrimitiveDataTypes) {
        data
    }

    fn set_managed_datatypes(&self, data: ManagedDataTypes) -> (r: ManagedDataTypes) {
        data
    }

    fn set_option_datatypes(&self, data: OptionDataTypes) -> (r: OptionDataTypes) {
        data
    }

    fn set_array_datatypes(&self, data: ArrayDataTypes) -> (r: ArrayDataTypes) {
        data
    }

    fn set_other_datatypes(&self, data: OtherDataTypes) -> (r: OtherDataTypes) {
        data
    }

    fn get_optional_value_1st_arg(&self, optional_value_arg: Option<u8>) -> (r: Option<u8>) {
        optional_value_arg
    }

    fn get_optional_value_2nd_arg(&self, required_arg: u8, optional_value_arg: Option<u8>) -> (r: (
        u8,
        Option<u8>,
    )) {
        (required_arg, optional_value_arg)
    }

    fn get_sample_mvec(&self) -> (r: Vec<u16>) {
        let mut vec: Vec<u16> = Vec::new();
        vec.push(12);
        vec.push(26);
        vec.push(3);
        proof {
            assert(vec@ =~= seq![12u16, 26u16, 3u16]);
        }
        vec
    }

    fn get_sample_mvec_complex(&self) -> (r: Vec<SubType>) {
        let mut vec: Vec<SubType> = Vec::new();
        vec.push(SubType { big_unsigned_integer: 14, address: self.sc_address });
        vec.push(SubType { big_unsigned_integer: 133, address: self.owner_address });
        proof {
            assert(vec@ =~= seq![
                (SubType { big_unsigned_integer: 14u128, address: self.sc_address }),
                (SubType { big_unsigned_integer: 133u128, address: self.owner_address }),
            ]);
        }
        vec
    }
}

} // verus!

//! Serial Management Interface (SMI).
//!
//! The SMI is the KSZ8863-specific, non-standard MIIM interface that provides access to all
//! available configuration registers.
//!
//! Each register is indexed via an 8-bit address and holds an 8-bit word. A field position is
//! a bit number: position `p` is the bit of weight `2^p`, and a field over positions `lo..=hi`
//! reads as the word shifted right by `lo` and masked to its width.
use vstd::prelude::*;

use crate::word::{load8, merge8};
use crate::InvalidAddress;

verus! {

/// Implemented for all 8-bit SMI registers.
///
/// A register is a raw word whose fields are read and written through masks; its view is
/// that word.
pub trait Register: Sized + Copy + View<V = u8> {
    /// The address at which the register is located.
    spec fn spec_address() -> Address;

    /// The register holding the raw word `bits`.
    spec fn spec_from_bits(bits: u8) -> Self;

    /// A register built from a raw word is that word, and it is the only register that is.
    proof fn lemma_from_bits(bits: u8)
        ensures
            Self::spec_from_bits(bits)@ == bits,
            forall|r: Self| r@ == bits ==> r == Self::spec_from_bits(bits),
    ;

    /// The address at which the register is located.
    fn address() -> (a: Address)
        ensures
            a == Self::spec_address(),
    ;

    /// The register holding the raw word `bits`.
    fn from_bits(bits: u8) -> (r: Self)
        ensures
            r == Self::spec_from_bits(bits),
    ;

    /// The raw word of the register.
    fn to_bits(&self) -> (b: u8)
        ensures
            b == self@,
    ;
}

/// The register of type `Q` at its default value.
pub open spec fn default_reg<Q: Register>() -> Q {
    Q::spec_from_bits(default_bits(Q::spec_address()))
}

/// A type wrapper that allows to read the individual fields of a register.
pub struct R<T>(pub T);

/// A type wrapper that allows to write to the individual fields of a register.
pub struct W<T>(pub T);

/// Read access to a field of one bit.
pub struct BitR {
    pub bit: bool,
}

/// Read access to a field of several bits.
pub struct BitsR<T> {
    pub bits: T,
}

/// Write access to a field of one bit, selected by `mask`, of the register in `w`.
pub struct BitW<T> {
    pub w: W<T>,
    pub mask: u8,
}

/// Write access to a field of several bits, selected by `mask` and starting at bit `shift`, of
/// the register in `w`.
pub struct BitsW<T> {
    pub w: W<T>,
    pub mask: u8,
    pub shift: u8,
}

impl BitR {
    /// Value of the field as a raw bit.
    pub fn bit(&self) -> (b: bool)
        ensures
            b == self.bit,
    {
        self.bit
    }

    /// Returns `true` if the bit is set (1).
    pub fn bit_is_set(&self) -> (b: bool)
        ensures
            b == self.bit,
    {
        self.bit
    }

    /// Returns `true` if the bit is clear (0).
    pub fn bit_is_clear(&self) -> (b: bool)
        ensures
            b == !self.bit,
    {
        !self.bit
    }
}

impl<T: Copy> BitsR<T> {
    /// Value of the field as raw bits.
    pub fn bits(&self) -> (b: T)
        ensures
            b == self.bits,
    {
        self.bits
    }
}

impl<T: Register> R<T> {
    /// The bits of the register.
    pub fn bits(&self) -> (b: u8)
        ensures
            b == self.0@,
    {
        self.0.to_bits()
    }
}

impl<T: Register> W<T> {
    /// Set all bits of the register.
    pub fn bits(self, bits: u8) -> (w: W<T>)
        ensures
            w.0@ == bits,
    {
        proof {
            T::lemma_from_bits(bits);
        }
        W(T::from_bits(bits))
    }

    /// Reset the writable fields of the register to their default state.
    pub fn reset(self) -> (w: W<T>)
        ensures
            w.0@ == merge8(self.0@, default_bits(T::spec_address()), reset_mask(T::spec_address())),
    {
        let a = T::address();
        let d = a.default_word();
        let m = a.reset_word();
        let bits = (self.0.to_bits() & !m) | (d & m);
        proof {
            T::lemma_from_bits(bits);
        }
        W(T::from_bits(bits))
    }
}

impl<T: Register> BitW<T> {
    /// Set the value as a raw bit, where true is 1, false is 0.
    pub fn bit(self, bit: bool) -> (w: W<T>)
        ensures
            w.0@ == merge8(self.w.0@, if bit { self.mask } else { 0 }, self.mask),
    {
        let d: u8 = if bit {
            self.mask
        } else {
            0
        };
        let bits = (self.w.0.to_bits() & !self.mask) | (d & self.mask);
        proof {
            T::lemma_from_bits(bits);
        }
        W(T::from_bits(bits))
    }

    /// Set the field bit (to 1).
    pub fn set_bit(self) -> (w: W<T>)
        ensures
            w.0@ == merge8(self.w.0@, self.mask, self.mask),
    {
        self.bit(true)
    }

    /// Clear the field bit (to 0).
    pub fn clear_bit(self) -> (w: W<T>)
        ensures
            w.0@ == merge8(self.w.0@, 0, self.mask),
    {
        self.bit(false)
    }

    /// Reset the field to its default value.
    pub fn reset(self) -> (w: W<T>)
        ensures
            w.0@ == merge8(self.w.0@, default_bits(T::spec_address()), self.mask),
    {
        let d = T::address().default_word();
        let bits = (self.w.0.to_bits() & !self.mask) | (d & self.mask);
        proof {
            T::lemma_from_bits(bits);
        }
        W(T::from_bits(bits))
    }
}

impl<T: Register> BitsW<T> {
    /// Store `bits` in the field; bits that do not fit in the field are dropped.
    pub fn bits(self, bits: u8) -> (w: W<T>)
        requires
            self.shift < 8,
        ensures
            w.0@ == merge8(self.w.0@, bits << self.shift, self.mask),
    {
        let d = bits << self.shift;
        let out = (self.w.0.to_bits() & !self.mask) | (d & self.mask);
        proof {
            T::lemma_from_bits(out);
        }
        W(T::from_bits(out))
    }

    /// Reset the field to its default value.
    pub fn reset(self) -> (w: W<T>)
        ensures
            w.0@ == merge8(self.w.0@, default_bits(T::spec_address()), self.mask),
    {
        let d = T::address().default_word();
        let out = (self.w.0.to_bits() & !self.mask) | (d & self.mask);
        proof {
            T::lemma_from_bits(out);
        }
        W(T::from_bits(out))
    }
}

/// Resetting every writable field of a register gives its default value, provided that the
/// bits that no reset touches already hold their default.
pub proof fn lemma_reset_gives_default(a: Address, v: u8)
    requires
        v & !reset_mask(a) == default_bits(a) & !reset_mask(a),
    ensures
        merge8(v, default_bits(a), reset_mask(a)) == default_bits(a),
{
    crate::word::lemma_reset_restores8(v, default_bits(a), reset_mask(a));
}

/// Resetting the writable fields of the register at `a` one after the other, in any order,
/// gives its default word, provided that the masks reset cover exactly its writable fields with
/// a default and that the other bits already hold their default.
pub proof fn lemma_field_resets_give_default(a: Address, v: u8, ms: Seq<u8>)
    requires
        crate::word::union8(ms) == reset_mask(a),
        v & !reset_mask(a) == default_bits(a) & !reset_mask(a),
    ensures
        crate::word::resets8(v, default_bits(a), ms) == default_bits(a),
{
    crate::word::lemma_resets_in_any_order8(v, default_bits(a), ms);
    crate::word::lemma_reset_restores8(v, default_bits(a), reset_mask(a));
}

/// The register of type `Q` held in `s`, if `s` holds that type.
pub open spec fn downcast<Q: Register>(s: State) -> Option<Q> {
    if s.spec_addr() == Q::spec_address() {
        Some(Q::spec_from_bits(s.spec_bits()))
    } else {
        None
    }
}

impl State {
    /// Construct a register state from its address and data.
    pub fn from_addr_and_data(addr: Address, data: u8) -> (s: State)
        ensures
            s == state_of(addr, data),
    {
        addr.state(data)
    }

    /// Construct the default register state associated with the given address.
    pub fn from_addr_default(addr: Address) -> (s: State)
        ensures
            s == state_of(addr, default_bits(addr)),
    {
        addr.state(addr.default_word())
    }

    /// Attempt to retrieve the register of type `Q` from the dynamic register representation.
    ///
    /// Returns an `Err` if the register type does not match.
    pub fn reg<Q: Register>(&self) -> (r: Result<Q, InvalidAddress>)
        ensures
            r == match downcast::<Q>(*self) {
                Some(q) => Ok(q),
                None => Err(InvalidAddress),
            },
    {
        if self.addr() == Q::address() {
            Ok(Q::from_bits(self.bits()))
        } else {
            Err(InvalidAddress)
        }
    }
}

/// A state built from an address and a raw word holds that address and that word.
pub proof fn lemma_state_of(a: Address, v: u8)
    ensures
        state_of(a, v).spec_addr() == a,
        state_of(a, v).spec_bits() == v,
{
    a.lemma_state(v);
}

/// The state built from the address of `Q` and any raw word downcasts to `Q`, and the register
/// obtained holds that word unchanged.
pub proof fn lemma_downcast_round_trip<Q: Register>(v: u8)
    ensures
        downcast::<Q>(state_of(Q::spec_address(), v)) is Some,
        downcast::<Q>(state_of(Q::spec_address(), v))->Some_0@ == v,
{
    lemma_state_of(Q::spec_address(), v);
    Q::lemma_from_bits(v);
}

/// The state built from an address other than the address of `Q` does not downcast to `Q`.
pub proof fn lemma_downcast_mismatch<Q: Register>(a: Address, v: u8)
    requires
        a != Q::spec_address(),
    ensures
        downcast::<Q>(state_of(a, v)) is None,
{
    lemma_state_of(a, v);
}

/// A numeric code names a register exactly when converting that register's address back gives
/// the code; every address converts to a code that names it.
pub proof fn lemma_code_round_trip(c: u8, a: Address)
    ensures
        address_of(code_of(a)) == Some(a),
        address_of(c) == Some(a) <==> code_of(a) == c,
{
    a.lemma_code();
}

impl From<Address> for u8 {
    fn from(a: Address) -> (c: u8) {
        a.code()
    }
}

impl vstd::std_specs::convert::FromSpecImpl<Address> for u8 {
    open spec fn obeys_from_spec() -> bool {
        true
    }

    open spec fn from_spec(a: Address) -> u8 {
        code_of(a)
    }
}

impl core::convert::TryFrom<u8> for Address {
    type Error = InvalidAddress;

    fn try_from(c: u8) -> (r: Result<Address, InvalidAddress>) {
        match Address::from_code(c) {
            Some(a) => Ok(a),
            None => Err(InvalidAddress),
        }
    }
}

impl vstd::std_specs::convert::TryFromSpecImpl<u8> for Address {
    open spec fn obeys_try_from_spec() -> bool {
        true
    }

    open spec fn try_from_spec(c: u8) -> Result<Address, InvalidAddress> {
        match address_of(c) {
            Some(a) => Ok(a),
            None => Err(InvalidAddress),
        }
    }
}

impl From<State> for u8 {
    fn from(s: State) -> (b: u8) {
        s.bits()
    }
}

impl vstd::std_specs::convert::FromSpecImpl<State> for u8 {
    open spec fn obeys_from_spec() -> bool {
        true
    }

    open spec fn from_spec(s: State) -> u8 {
        s.spec_bits()
    }
}

/// The state of every register, one slot per address.
///
/// Every slot is always populated, and a slot only ever holds the state of the register at its
/// own address. The view maps each address to the raw word of its register.
#[derive(Clone, Copy, Debug)]
pub struct RegMap {
    words: [u8; COUNT],
}

impl View for RegMap {
    type V = Map<Address, u8>;

    closed spec fn view(&self) -> Map<Address, u8> {
        Map::total(|a: Address| self.words@[index_of(a)])
    }
}

impl Default for RegMap {
    fn default() -> (m: RegMap)
        ensures
            m@ == Map::total(|a: Address| default_bits(a)),
    {
        let mut words: [u8; COUNT] = [0; COUNT];
        let mut i: usize = 0;
        while i < COUNT
            invariant
                0 <= i <= COUNT,
                forall|j: int| 0 <= j < i ==> words@[j] == default_bits(#[trigger] address_at(j)),
            decreases COUNT - i,
        {
            proof {
                lemma_at(i as int);
            }
            words[i] = Address::at(i).default_word();
            i += 1;
        }
        let m = RegMap { words };
        assert forall|a: Address| #[trigger] m@[a] == default_bits(a) by {
            a.lemma_index();
        }
        assert(m@ =~= Map::total(|a: Address| default_bits(a)));
        m
    }
}

impl RegMap {
    /// The map holds a register for every address.
    pub proof fn lemma_total(&self)
        ensures
            self@.dom() == Set::<Address>::full(),
    {
        assert(self@.dom() =~= Set::<Address>::full());
    }

    /// The dynamic representation of the register state at the given address.
    pub fn state(&self, addr: Address) -> (s: State)
        ensures
            s == state_of(addr, self@[addr]),
    {
        proof {
            addr.lemma_index();
        }
        addr.state(self.words[addr.index()])
    }

    /// Update the given register state.
    pub fn set_state(&mut self, state: State)
        ensures
            final(self)@ == old(self)@.insert(state.spec_addr(), state.spec_bits()),
    {
        let a = state.addr();
        self.put(a, state.bits());
    }

    /// The register of the given type.
    pub fn reg<Q: Register>(&self) -> (r: Q)
        ensures
            r@ == self@[Q::spec_address()],
    {
        let a = Q::address();
        proof {
            a.lemma_index();
            Q::lemma_from_bits(self.words@[index_of(a)]);
        }
        Q::from_bits(self.words[a.index()])
    }

    /// Replace the register of the given type.
    pub fn set_reg<Q: Register>(&mut self, r: Q)
        ensures
            final(self)@ == old(self)@.insert(Q::spec_address(), r@),
    {
        let a = Q::address();
        self.put(a, r.to_bits());
    }

    fn put(&mut self, a: Address, bits: u8)
        ensures
            final(self)@ == old(self)@.insert(a, bits),
    {
        proof {
            a.lemma_index();
        }
        self.words[a.index()] = bits;
        proof {
            assert forall|b: Address| #[trigger] self@[b] == old(self)@.insert(a, bits)[b] by {
                b.lemma_index();
            }
            assert(self@ =~= old(self)@.insert(a, bits));
        }
    }
}

/// A trait for reading from the KSZ8863's SMI interface.
pub trait Read: Sized {
    /// Errors that might occur on the SMI interface.
    type Error;

    /// Holds when a read of `reg_addr` may return `r` and take the interface from `self` to
    /// `post`. An interface that does not say promises nothing.
    open spec fn read_spec(self, post: Self, reg_addr: u8, r: Result<u8, Self::Error>) -> bool {
        true
    }

    /// Read the data from the given register address.
    fn read(&mut self, reg_addr: u8) -> (r: Result<u8, Self::Error>)
        ensures
            Self::read_spec(*old(self), *final(self), reg_addr, r),
    ;
}

/// A trait for writing to the KSZ8863's SMI interface.
pub trait Write: Sized {
    /// Errors that might occur on the SMI interface.
    type Error;

    /// Holds when a write of `data` to `reg_addr` may return `r` and take the interface from
    /// `self` to `post`. An interface that does not say promises nothing.
    open spec fn write_spec(
        self,
        post: Self,
        reg_addr: u8,
        data: u8,
        r: Result<(), Self::Error>,
    ) -> bool {
        true
    }

    /// Write to the register at the given address.
    fn write(&mut self, reg_addr: u8, data: u8) -> (r: Result<(), Self::Error>)
        ensures
            Self::write_spec(*old(self), *final(self), reg_addr, data, r),
    ;
}

/// A higher-level wrapper around an `smi::Read` and/or `smi::Write` implementation.
pub struct Smi<T>(pub T);

/// A wrapper around an `smi::Read` and/or `smi::Write` implementation for a particular SMI
/// register.
pub struct Reg<'smi, T, Q> {
    pub smi: &'smi mut Smi<T>,
    pub reg: core::marker::PhantomData<Q>,
}

impl<T> Smi<T> {
    /// Access a particular register.
    pub fn reg<Q>(&mut self) -> (r: Reg<'_, T, Q>)
        ensures
            *r.smi == *old(self),
            *final(self) == *final(r.smi),
    {
        Reg { smi: self, reg: core::marker::PhantomData }
    }
}

impl<T: Read> Smi<T> {
    /// Read the register with the given address.
    pub fn read(&mut self, addr: Address) -> (r: Result<State, T::Error>)
        ensures
            match r {
                Ok(s) => s == state_of(addr, s.spec_bits()) && T::read_spec(
                    old(self).0,
                    final(self).0,
                    code_of(addr),
                    Ok(s.spec_bits()),
                ),
                Err(e) => T::read_spec(old(self).0, final(self).0, code_of(addr), Err(e)),
            },
    {
        match self.0.read(addr.code()) {
            Ok(bits) => {
                proof {
                    lemma_state_of(addr, bits);
                }
                Ok(State::from_addr_and_data(addr, bits))
            },
            Err(e) => Err(e),
        }
    }
}

impl<T: Write> Smi<T> {
    /// Write the given register state to the register with the associated address.
    pub fn write(&mut self, state: State) -> (r: Result<(), T::Error>)
        ensures
            T::write_spec(
                old(self).0,
                final(self).0,
                code_of(state.spec_addr()),
                state.spec_bits(),
                r,
            ),
    {
        self.0.write(state.addr().code(), state.bits())
    }
}

impl<'smi, T: Read, Q: Register> Reg<'smi, T, Q> {
    /// Read the value from register `Q` via SMI.
    pub fn read(&mut self) -> (r: Result<Q, T::Error>)
        ensures
            match r {
                Ok(q) => T::read_spec(
                    old(self).smi.0,
                    final(self).smi.0,
                    code_of(Q::spec_address()),
                    Ok(q@),
                ),
                Err(e) => T::read_spec(
                    old(self).smi.0,
                    final(self).smi.0,
                    code_of(Q::spec_address()),
                    Err(e),
                ),
            },
    {
        match self.smi.0.read(Q::address().code()) {
            Ok(bits) => {
                proof {
                    Q::lemma_from_bits(bits);
                }
                Ok(Q::from_bits(bits))
            },
            Err(e) => Err(e),
        }
    }
}

impl<'smi, T: Write, Q: Register> Reg<'smi, T, Q> {
    /// Write to the register `Q`, starting from its default state.
    ///
    /// Fields that `write` does not set keep their default value, whatever the register held.
    pub fn write<F: FnOnce(W<Q>) -> W<Q>>(&mut self, write: F) -> (r: Result<(), T::Error>)
        requires
            write.requires((W(default_reg::<Q>()),)),
        ensures
            exists|w: W<Q>|
                write.ensures((W(default_reg::<Q>()),), w) && T::write_spec(
                    old(self).smi.0,
                    final(self).smi.0,
                    code_of(Q::spec_address()),
                    w.0@,
                    r,
                ),
    {
        let a = Q::address();
        let w = write(W(Q::from_bits(a.default_word())));
        let r = self.smi.0.write(a.code(), w.0.to_bits());
        assert(write.ensures((W(default_reg::<Q>()),), w));
        r
    }
}

impl<'smi, T, Q: Register> Reg<'smi, T, Q> {
    /// Modify the register `Q`.
    ///
    /// This first reads the value from the register, delivers it to the `modify` function, and
    /// then writes the result. Fields that `modify` does not set keep the value that was read.
    pub fn modify<F, E>(&mut self, modify: F) -> (r: Result<(), E>) where
        T: Read<Error = E> + Write<Error = E>,
        F: FnOnce(W<Q>) -> W<Q>,

        requires
            forall|q: Q| modify.requires((W(q),)),
        ensures
            (exists|mid: T, bits: u8, w: W<Q>|
                {
                    &&& T::read_spec(old(self).smi.0, mid, code_of(Q::spec_address()), Ok(bits))
                    &&& modify.ensures((W(Q::spec_from_bits(bits)),), w)
                    &&& T::write_spec(
                        mid,
                        final(self).smi.0,
                        code_of(Q::spec_address()),
                        w.0@,
                        r,
                    )
                }) || (exists|e: E|
                {
                    &&& T::read_spec(
                        old(self).smi.0,
                        final(self).smi.0,
                        code_of(Q::spec_address()),
                        Err(e),
                    )
                    &&& r == Err::<(), E>(e)
                }),
    {
        let c = Q::address().code();
        let ghost pre = self.smi.0;
        match self.smi.0.read(c) {
            Ok(bits) => {
                let ghost mid = self.smi.0;
                let w = modify(W(Q::from_bits(bits)));
                let r = self.smi.0.write(c, w.0.to_bits());
                assert(T::read_spec(pre, mid, c, Ok(bits)));
                assert(modify.ensures((W(Q::spec_from_bits(bits)),), w));
                assert(T::write_spec(mid, self.smi.0, c, w.0@, r));
                r
            },
            Err(e) => {
                assert(T::read_spec(pre, self.smi.0, c, Err(e)));
                Err(e)
            },
        }
    }
}

impl<'a, T: Read> Read for &'a mut T {
    type Error = T::Error;

    open spec fn read_spec(self, post: Self, reg_addr: u8, r: Result<u8, T::Error>) -> bool {
        T::read_spec(*self, *post, reg_addr, r)
    }

    fn read(&mut self, reg_addr: u8) -> (r: Result<u8, T::Error>) {
        (**self).read(reg_addr)
    }
}

impl<'a, T: Write> Write for &'a mut T {
    type Error = T::Error;

    open spec fn write_spec(
        self,
        post: Self,
        reg_addr: u8,
        data: u8,
        r: Result<(), T::Error>,
    ) -> bool {
        T::write_spec(*self, *post, reg_addr, data, r)
    }

    fn write(&mut self, reg_addr: u8, data: u8) -> (r: Result<(), T::Error>) {
        (**self).write(reg_addr, data)
    }
}

impl Read for RegMap {
    type Error = InvalidAddress;

    open spec fn read_spec(self, post: Self, reg_addr: u8, r: Result<u8, InvalidAddress>) -> bool {
        &&& post@ == self@
        &&& r == match address_of(reg_addr) {
            Some(a) => Ok(self@[a]),
            None => Err(InvalidAddress),
        }
    }

    fn read(&mut self, reg_addr: u8) -> (r: Result<u8, InvalidAddress>) {
        match Address::from_code(reg_addr) {
            Some(a) => {
                let s = self.state(a);
                proof {
                    lemma_state_of(a, self@[a]);
                }
                Ok(s.bits())
            },
            None => Err(InvalidAddress),
        }
    }
}

impl Write for RegMap {
    type Error = InvalidAddress;

    open spec fn write_spec(
        self,
        post: Self,
        reg_addr: u8,
        data: u8,
        r: Result<(), InvalidAddress>,
    ) -> bool {
        match address_of(reg_addr) {
            Some(a) => r is Ok && post@ == self@.insert(a, data),
            None => r == Err::<(), InvalidAddress>(InvalidAddress) && post@ == self@,
        }
    }

    fn write(&mut self, reg_addr: u8, data: u8) -> (r: Result<(), InvalidAddress>) {
        match Address::from_code(reg_addr) {
            Some(a) => {
                self.set_state(State::from_addr_and_data(a, data));
                proof {
                    lemma_state_of(a, data);
                }
                Ok(())
            },
            None => Err(InvalidAddress),
        }
    }
}

/// On the map, writing a word to a register and then reading that register returns the word
/// written, whatever the register held before.
pub proof fn lemma_map_write_then_read(
    pre: RegMap,
    mid: RegMap,
    post: RegMap,
    a: Address,
    data: u8,
    rw: Result<(), InvalidAddress>,
    rr: Result<u8, InvalidAddress>,
)
    requires
        pre.write_spec(mid, code_of(a), data, rw),
        mid.read_spec(post, code_of(a), rr),
    ensures
        rw is Ok,
        rr == Ok::<u8, InvalidAddress>(data),
{
    a.lemma_code();
}

/// On the map, reading a register returns the word it holds; writing back a word then leaves
/// that word in the register and every other register as it was.
pub proof fn lemma_map_read_then_write(
    pre: RegMap,
    mid: RegMap,
    post: RegMap,
    a: Address,
    other: Address,
    bits: u8,
    data: u8,
    rw: Result<(), InvalidAddress>,
)
    requires
        pre.read_spec(mid, code_of(a), Ok(bits)),
        mid.write_spec(post, code_of(a), data, rw),
        other != a,
    ensures
        bits == pre@[a],
        rw is Ok,
        post@[a] == data,
        post@[other] == pre@[other],
{
    a.lemma_code();
}

/// The addresses of the documented SMI registers.
#[derive(Clone, Copy, Debug, PartialEq, Eq, Structural, Hash, PartialOrd, Ord)]
pub enum Address {
    ChipId0,
    ChipId1,
    Gc0,
    Gc1,
    Gc2,
    Gc3,
    Gc4,
    Gc5,
    Gc9,
    Gc10,
    Gc11,
    Gc12,
    Gc13,
    Port1Ctrl0,
    Port1Ctrl1,
    Port1Ctrl2,
    Port1Ctrl3,
    Port1Ctrl4,
    Port1Ctrl5,
    Port1Q0IngressRateLimit,
    Port1Q1IngressRateLimit,
    Port1Q2IngressRateLimit,
    Port1Q3IngressRateLimit,
    Port1PhySpecial,
    Port1LinkMdResult,
    Port1Ctrl12,
    Port1Ctrl13,
    Port1Status0,
    Port1Status1,
    Port2Ctrl0,
    Port2Ctrl1,
    Port2Ctrl2,
    Port2Ctrl3,
    Port2Ctrl4,
    Port2Ctrl5,
    Port2Q0IngressRateLimit,
    Port2Q1IngressRateLimit,
    Port2Q2IngressRateLimit,
    Port2Q3IngressRateLimit,
    Port2PhySpecial,
    Port2LinkMdResult,
    Port2Ctrl12,
    Port2Ctrl13,
    Port2Status0,
    Port2Status1,
    Port3Ctrl0,
    Port3Ctrl1,
    Port3Ctrl2,
    Port3Ctrl3,
    Port3Ctrl4,
    Port3Ctrl5,
    Port3Q0IngressRateLimit,
    Port3Q1IngressRateLimit,
    Port3Q2IngressRateLimit,
    Port3Q3IngressRateLimit,
    Port3Status1,
    Reset,
    TosPriorityCtrl0,
    TosPriorityCtrl1,
    TosPriorityCtrl2,
    TosPriorityCtrl3,
    TosPriorityCtrl4,
    TosPriorityCtrl5,
    TosPriorityCtrl6,
    TosPriorityCtrl7,
    TosPriorityCtrl8,
    TosPriorityCtrl9,
    TosPriorityCtrl10,
    TosPriorityCtrl11,
    TosPriorityCtrl12,
    TosPriorityCtrl13,
    TosPriorityCtrl14,
    TosPriorityCtrl15,
    MacAddr0,
    MacAddr1,
    MacAddr2,
    MacAddr3,
    MacAddr4,
    MacAddr5,
    UserDef1,
    UserDef2,
    UserDef3,
    IndirectAccessCtrl0,
    IndirectAccessCtrl1,
    IndirectData8,
    IndirectData7,
    IndirectData6,
    IndirectData5,
    IndirectData4,
    IndirectData3,
    IndirectData2,
    IndirectData1,
    IndirectData0,
    Station1MacAddr0,
    Station1MacAddr1,
    Station1MacAddr2,
    Station1MacAddr3,
    Station1MacAddr4,
    Station1MacAddr5,
    Station2MacAddr0,
    Station2MacAddr1,
    Station2MacAddr2,
    Station2MacAddr3,
    Station2MacAddr4,
    Station2MacAddr5,
    Mode,
    HighPriorityPacketBufferQ3,
    HighPriorityPacketBufferQ2,
    HighPriorityPacketBufferQ1,
    HighPriorityPacketBufferQ0,
    PmUsageFlowCtrlSelectMode1,
    PmUsageFlowCtrlSelectMode2,
    PmUsageFlowCtrlSelectMode3,
    PmUsageFlowCtrlSelectMode4,
    Port1TxqSplitForQ3,
    Port1TxqSplitForQ2,
    Port1TxqSplitForQ1,
    Port1TxqSplitForQ0,
    Port2TxqSplitForQ3,
    Port2TxqSplitForQ2,
    Port2TxqSplitForQ1,
    Port2TxqSplitForQ0,
    Port3TxqSplitForQ3,
    Port3TxqSplitForQ2,
    Port3TxqSplitForQ1,
    Port3TxqSplitForQ0,
    InterruptEnable,
    LinkChangeInterrupt,
    ForcePauseOff,
    FiberSignalThreshold,
    InternalLdoCtrl,
    InsertSrcPvid,
    PwrMgmtAndLedMode,
    SleepMode,
    FwdInvalidVidFrameAndHostMode,
}

/// The number of documented registers.
pub const COUNT: usize = 135;

/// The numeric code of an address.
pub open spec fn code_of(a: Address) -> u8 {
    match a {
        Address::ChipId0 => 0x00,
        Address::ChipId1 => 0x01,
        Address::Gc0 => 0x02,
        Address::Gc1 => 0x03,
        Address::Gc2 => 0x04,
        Address::Gc3 => 0x05,
        Address::Gc4 => 0x06,
        Address::Gc5 => 0x07,
        Address::Gc9 => 0x0b,
        Address::Gc10 => 0x0c,
        Address::Gc11 => 0x0d,
        Address::Gc12 => 0x0e,
        Address::Gc13 => 0x0f,
        Address::Port1Ctrl0 => 0x10,
        Address::Port1Ctrl1 => 0x11,
        Address::Port1Ctrl2 => 0x12,
        Address::Port1Ctrl3 => 0x13,
        Address::Port1Ctrl4 => 0x14,
        Address::Port1Ctrl5 => 0x15,
        Address::Port1Q0IngressRateLimit => 0x16,
        Address::Port1Q1IngressRateLimit => 0x17,
        Address::Port1Q2IngressRateLimit => 0x18,
        Address::Port1Q3IngressRateLimit => 0x19,
        Address::Port1PhySpecial => 0x1a,
        Address::Port1LinkMdResult => 0x1b,
        Address::Port1Ctrl12 => 0x1c,
        Address::Port1Ctrl13 => 0x1d,
        Address::Port1Status0 => 0x1e,
        Address::Port1Status1 => 0x1f,
        Address::Port2Ctrl0 => 0x20,
        Address::Port2Ctrl1 => 0x21,
        Address::Port2Ctrl2 => 0x22,
        Address::Port2Ctrl3 => 0x23,
        Address::Port2Ctrl4 => 0x24,
        Address::Port2Ctrl5 => 0x25,
        Address::Port2Q0IngressRateLimit => 0x26,
        Address::Port2Q1IngressRateLimit => 0x27,
        Address::Port2Q2IngressRateLimit => 0x28,
        Address::Port2Q3IngressRateLimit => 0x29,
        Address::Port2PhySpecial => 0x2a,
        Address::Port2LinkMdResult => 0x2b,
        Address::Port2Ctrl12 => 0x2c,
        Address::Port2Ctrl13 => 0x2d,
        Address::Port2Status0 => 0x2e,
        Address::Port2Status1 => 0x2f,
        Address::Port3Ctrl0 => 0x30,
        Address::Port3Ctrl1 => 0x31,
        Address::Port3Ctrl2 => 0x32,
        Address::Port3Ctrl3 => 0x33,
        Address::Port3Ctrl4 => 0x34,
        Address::Port3Ctrl5 => 0x35,
        Address::Port3Q0IngressRateLimit => 0x36,
        Address::Port3Q1IngressRateLimit => 0x37,
        Address::Port3Q2IngressRateLimit => 0x38,
        Address::Port3Q3IngressRateLimit => 0x39,
        Address::Port3Status1 => 0x3f,
        Address::Reset => 0x43,
        Address::TosPriorityCtrl0 => 0x60,
        Address::TosPriorityCtrl1 => 0x61,
        Address::TosPriorityCtrl2 => 0x62,
        Address::TosPriorityCtrl3 => 0x63,
        Address::TosPriorityCtrl4 => 0x64,
        Address::TosPriorityCtrl5 => 0x65,
        Address::TosPriorityCtrl6 => 0x66,
        Address::TosPriorityCtrl7 => 0x67,
        Address::TosPriorityCtrl8 => 0x68,
        Address::TosPriorityCtrl9 => 0x69,
        Address::TosPriorityCtrl10 => 0x6a,
        Address::TosPriorityCtrl11 => 0x6b,
        Address::TosPriorityCtrl12 => 0x6c,
        Address::TosPriorityCtrl13 => 0x6d,
        Address::TosPriorityCtrl14 => 0x6e,
        Address::TosPriorityCtrl15 => 0x6f,
        Address::MacAddr0 => 0x70,
        Address::MacAddr1 => 0x71,
        Address::MacAddr2 => 0x72,
        Address::MacAddr3 => 0x73,
        Address::MacAddr4 => 0x74,
        Address::MacAddr5 => 0x75,
        Address::UserDef1 => 0x76,
        Address::UserDef2 => 0x77,
        Address::UserDef3 => 0x78,
        Address::IndirectAccessCtrl0 => 0x79,
        Address::IndirectAccessCtrl1 => 0x7a,
        Address::IndirectData8 => 0x7b,
        Address::IndirectData7 => 0x7c,
        Address::IndirectData6 => 0x7d,
        Address::IndirectData5 => 0x7e,
        Address::IndirectData4 => 0x7f,
        Address::IndirectData3 => 0x80,
        Address::IndirectData2 => 0x81,
        Address::IndirectData1 => 0x82,
        Address::IndirectData0 => 0x83,
        Address::Station1MacAddr0 => 0x8e,
        Address::Station1MacAddr1 => 0x8f,
        Address::Station1MacAddr2 => 0x90,
        Address::Station1MacAddr3 => 0x91,
        Address::Station1MacAddr4 => 0x92,
        Address::Station1MacAddr5 => 0x93,
        Address::Station2MacAddr0 => 0x94,
        Address::Station2MacAddr1 => 0x95,
        Address::Station2MacAddr2 => 0x96,
        Address::Station2MacAddr3 => 0x97,
        Address::Station2MacAddr4 => 0x98,
        Address::Station2MacAddr5 => 0x99,
        Address::Mode => 0xa6,
        Address::HighPriorityPacketBufferQ3 => 0xa7,
        Address::HighPriorityPacketBufferQ2 => 0xa8,
        Address::HighPriorityPacketBufferQ1 => 0xa9,
        Address::HighPriorityPacketBufferQ0 => 0xaa,
        Address::PmUsageFlowCtrlSelectMode1 => 0xab,
        Address::PmUsageFlowCtrlSelectMode2 => 0xac,
        Address::PmUsageFlowCtrlSelectMode3 => 0xad,
        Address::PmUsageFlowCtrlSelectMode4 => 0xae,
        Address::Port1TxqSplitForQ3 => 0xaf,
        Address::Port1TxqSplitForQ2 => 0xb0,
        Address::Port1TxqSplitForQ1 => 0xb1,
        Address::Port1TxqSplitForQ0 => 0xb2,
        Address::Port2TxqSplitForQ3 => 0xb3,
        Address::Port2TxqSplitForQ2 => 0xb4,
        Address::Port2TxqSplitForQ1 => 0xb5,
        Address::Port2TxqSplitForQ0 => 0xb6,
        Address::Port3TxqSplitForQ3 => 0xb7,
        Address::Port3TxqSplitForQ2 => 0xb8,
        Address::Port3TxqSplitForQ1 => 0xb9,
        Address::Port3TxqSplitForQ0 => 0xba,
        Address::InterruptEnable => 0xbb,
        Address::LinkChangeInterrupt => 0xbc,
        Address::ForcePauseOff => 0xbd,
        Address::FiberSignalThreshold => 0xc0,
        Address::InternalLdoCtrl => 0xc1,
        Address::InsertSrcPvid => 0xc2,
        Address::PwrMgmtAndLedMode => 0xc3,
        Address::SleepMode => 0xc4,
        Address::FwdInvalidVidFrameAndHostMode => 0xc6,
    }
}

/// The address with the given numeric code, if one is documented.
pub open spec fn address_of(c: u8) -> Option<Address> {
    match c {
        0x00 => Some(Address::ChipId0),
        0x01 => Some(Address::ChipId1),
        0x02 => Some(Address::Gc0),
        0x03 => Some(Address::Gc1),
        0x04 => Some(Address::Gc2),
        0x05 => Some(Address::Gc3),
        0x06 => Some(Address::Gc4),
        0x07 => Some(Address::Gc5),
        0x0b => Some(Address::Gc9),
        0x0c => Some(Address::Gc10),
        0x0d => Some(Address::Gc11),
        0x0e => Some(Address::Gc12),
        0x0f => Some(Address::Gc13),
        0x10 => Some(Address::Port1Ctrl0),
        0x11 => Some(Address::Port1Ctrl1),
        0x12 => Some(Address::Port1Ctrl2),
        0x13 => Some(Address::Port1Ctrl3),
        0x14 => Some(Address::Port1Ctrl4),
        0x15 => Some(Address::Port1Ctrl5),
        0x16 => Some(Address::Port1Q0IngressRateLimit),
        0x17 => Some(Address::Port1Q1IngressRateLimit),
        0x18 => Some(Address::Port1Q2IngressRateLimit),
        0x19 => Some(Address::Port1Q3IngressRateLimit),
        0x1a => Some(Address::Port1PhySpecial),
        0x1b => Some(Address::Port1LinkMdResult),
        0x1c => Some(Address::Port1Ctrl12),
        0x1d => Some(Address::Port1Ctrl13),
        0x1e => Some(Address::Port1Status0),
        0x1f => Some(Address::Port1Status1),
        0x20 => Some(Address::Port2Ctrl0),
        0x21 => Some(Address::Port2Ctrl1),
        0x22 => Some(Address::Port2Ctrl2),
        0x23 => Some(Address::Port2Ctrl3),
        0x24 => Some(Address::Port2Ctrl4),
        0x25 => Some(Address::Port2Ctrl5),
        0x26 => Some(Address::Port2Q0IngressRateLimit),
        0x27 => Some(Address::Port2Q1IngressRateLimit),
        0x28 => Some(Address::Port2Q2IngressRateLimit),
        0x29 => Some(Address::Port2Q3IngressRateLimit),
        0x2a => Some(Address::Port2PhySpecial),
        0x2b => Some(Address::Port2LinkMdResult),
        0x2c => Some(Address::Port2Ctrl12),
        0x2d => Some(Address::Port2Ctrl13),
        0x2e => Some(Address::Port2Status0),
        0x2f => Some(Address::Port2Status1),
        0x30 => Some(Address::Port3Ctrl0),
        0x31 => Some(Address::Port3Ctrl1),
        0x32 => Some(Address::Port3Ctrl2),
        0x33 => Some(Address::Port3Ctrl3),
        0x34 => Some(Address::Port3Ctrl4),
        0x35 => Some(Address::Port3Ctrl5),
        0x36 => Some(Address::Port3Q0IngressRateLimit),
        0x37 => Some(Address::Port3Q1IngressRateLimit),
        0x38 => Some(Address::Port3Q2IngressRateLimit),
        0x39 => Some(Address::Port3Q3IngressRateLimit),
        0x3f => Some(Address::Port3Status1),
        0x43 => Some(Address::Reset),
        0x60 => Some(Address::TosPriorityCtrl0),
        0x61 => Some(Address::TosPriorityCtrl1),
        0x62 => Some(Address::TosPriorityCtrl2),
        0x63 => Some(Address::TosPriorityCtrl3),
        0x64 => Some(Address::TosPriorityCtrl4),
        0x65 => Some(Address::TosPriorityCtrl5),
        0x66 => Some(Address::TosPriorityCtrl6),
        0x67 => Some(Address::TosPriorityCtrl7),
        0x68 => Some(Address::TosPriorityCtrl8),
        0x69 => Some(Address::TosPriorityCtrl9),
        0x6a => Some(Address::TosPriorityCtrl10),
        0x6b => Some(Address::TosPriorityCtrl11),
        0x6c => Some(Address::TosPriorityCtrl12),
        0x6d => Some(Address::TosPriorityCtrl13),
        0x6e => Some(Address::TosPriorityCtrl14),
        0x6f => Some(Address::TosPriorityCtrl15),
        0x70 => Some(Address::MacAddr0),
        0x71 => Some(Address::MacAddr1),
        0x72 => Some(Address::MacAddr2),
        0x73 => Some(Address::MacAddr3),
        0x74 => Some(Address::MacAddr4),
        0x75 => Some(Address::MacAddr5),
        0x76 => Some(Address::UserDef1),
        0x77 => Some(Address::UserDef2),
        0x78 => Some(Address::UserDef3),
        0x79 => Some(Address::IndirectAccessCtrl0),
        0x7a => Some(Address::IndirectAccessCtrl1),
        0x7b => Some(Address::IndirectData8),
        0x7c => Some(Address::IndirectData7),
        0x7d => Some(Address::IndirectData6),
        0x7e => Some(Address::IndirectData5),
        0x7f => Some(Address::IndirectData4),
        0x80 => Some(Address::IndirectData3),
        0x81 => Some(Address::IndirectData2),
        0x82 => Some(Address::IndirectData1),
        0x83 => Some(Address::IndirectData0),
        0x8e => Some(Address::Station1MacAddr0),
        0x8f => Some(Address::Station1MacAddr1),
        0x90 => Some(Address::Station1MacAddr2),
        0x91 => Some(Address::Station1MacAddr3),
        0x92 => Some(Address::Station1MacAddr4),
        0x93 => Some(Address::Station1MacAddr5),
        0x94 => Some(Address::Station2MacAddr0),
        0x95 => Some(Address::Station2MacAddr1),
        0x96 => Some(Address::Station2MacAddr2),
        0x97 => Some(Address::Station2MacAddr3),
        0x98 => Some(Address::Station2MacAddr4),
        0x99 => Some(Address::Station2MacAddr5),
        0xa6 => Some(Address::Mode),
        0xa7 => Some(Address::HighPriorityPacketBufferQ3),
        0xa8 => Some(Address::HighPriorityPacketBufferQ2),
        0xa9 => Some(Address::HighPriorityPacketBufferQ1),
        0xaa => Some(Address::HighPriorityPacketBufferQ0),
        0xab => Some(Address::PmUsageFlowCtrlSelectMode1),
        0xac => Some(Address::PmUsageFlowCtrlSelectMode2),
        0xad => Some(Address::PmUsageFlowCtrlSelectMode3),
        0xae => Some(Address::PmUsageFlowCtrlSelectMode4),
        0xaf => Some(Address::Port1TxqSplitForQ3),
        0xb0 => Some(Address::Port1TxqSplitForQ2),
        0xb1 => Some(Address::Port1TxqSplitForQ1),
        0xb2 => Some(Address::Port1TxqSplitForQ0),
        0xb3 => Some(Address::Port2TxqSplitForQ3),
        0xb4 => Some(Address::Port2TxqSplitForQ2),
        0xb5 => Some(Address::Port2TxqSplitForQ1),
        0xb6 => Some(Address::Port2TxqSplitForQ0),
        0xb7 => Some(Address::Port3TxqSplitForQ3),
        0xb8 => Some(Address::Port3TxqSplitForQ2),
        0xb9 => Some(Address::Port3TxqSplitForQ1),
        0xba => Some(Address::Port3TxqSplitForQ0),
        0xbb => Some(Address::InterruptEnable),
        0xbc => Some(Address::LinkChangeInterrupt),
        0xbd => Some(Address::ForcePauseOff),
        0xc0 => Some(Address::FiberSignalThreshold),
        0xc1 => Some(Address::InternalLdoCtrl),
        0xc2 => Some(Address::InsertSrcPvid),
        0xc3 => Some(Address::PwrMgmtAndLedMode),
        0xc4 => Some(Address::SleepMode),
        0xc6 => Some(Address::FwdInvalidVidFrameAndHostMode),
        _ => None,
    }
}

/// The raw word of the register at `a` with every field at its default.
pub open spec fn default_bits(a: Address) -> u8 {
    match a {
        Address::ChipId0 => 0x88,
        Address::ChipId1 => 0x31,
        Address::Gc0 => 0x00,
        Address::Gc1 => 0x34,
        Address::Gc2 => 0xf0,
        Address::Gc3 => 0x00,
        Address::Gc4 => 0x10,
        Address::Gc5 => 0x63,
        Address::Gc9 => 0x88,
        Address::Gc10 => 0x50,
        Address::Gc11 => 0xfa,
        Address::Gc12 => 0x47,
        Address::Gc13 => 0x08,
        Address::Port1Ctrl0 => 0x00,
        Address::Port1Ctrl1 => 0x07,
        Address::Port1Ctrl2 => 0x06,
        Address::Port1Ctrl3 => 0x00,
        Address::Port1Ctrl4 => 0x01,
        Address::Port1Ctrl5 => 0x00,
        Address::Port1Q0IngressRateLimit => 0x00,
        Address::Port1Q1IngressRateLimit => 0x00,
        Address::Port1Q2IngressRateLimit => 0x00,
        Address::Port1Q3IngressRateLimit => 0x00,
        Address::Port1PhySpecial => 0x00,
        Address::Port1LinkMdResult => 0x00,
        Address::Port1Ctrl12 => 0x1f,
        Address::Port1Ctrl13 => 0x00,
        Address::Port1Status0 => 0x00,
        Address::Port1Status1 => 0x80,
        Address::Port2Ctrl0 => 0x00,
        Address::Port2Ctrl1 => 0x07,
        Address::Port2Ctrl2 => 0x06,
        Address::Port2Ctrl3 => 0x00,
        Address::Port2Ctrl4 => 0x01,
        Address::Port2Ctrl5 => 0x00,
        Address::Port2Q0IngressRateLimit => 0x00,
        Address::Port2Q1IngressRateLimit => 0x00,
        Address::Port2Q2IngressRateLimit => 0x00,
        Address::Port2Q3IngressRateLimit => 0x00,
        Address::Port2PhySpecial => 0x00,
        Address::Port2LinkMdResult => 0x00,
        Address::Port2Ctrl12 => 0x1f,
        Address::Port2Ctrl13 => 0x00,
        Address::Port2Status0 => 0x00,
        Address::Port2Status1 => 0x80,
        Address::Port3Ctrl0 => 0x00,
        Address::Port3Ctrl1 => 0x07,
        Address::Port3Ctrl2 => 0x06,
        Address::Port3Ctrl3 => 0x00,
        Address::Port3Ctrl4 => 0x01,
        Address::Port3Ctrl5 => 0x00,
        Address::Port3Q0IngressRateLimit => 0x00,
        Address::Port3Q1IngressRateLimit => 0x00,
        Address::Port3Q2IngressRateLimit => 0x00,
        Address::Port3Q3IngressRateLimit => 0x00,
        Address::Port3Status1 => 0x00,
        Address::Reset => 0x00,
        Address::TosPriorityCtrl0 => 0x00,
        Address::TosPriorityCtrl1 => 0x00,
        Address::TosPriorityCtrl2 => 0x00,
        Address::TosPriorityCtrl3 => 0x00,
        Address::TosPriorityCtrl4 => 0x00,
        Address::TosPriorityCtrl5 => 0x00,
        Address::TosPriorityCtrl6 => 0x00,
        Address::TosPriorityCtrl7 => 0x00,
        Address::TosPriorityCtrl8 => 0x00,
        Address::TosPriorityCtrl9 => 0x00,
        Address::TosPriorityCtrl10 => 0x00,
        Address::TosPriorityCtrl11 => 0x00,
        Address::TosPriorityCtrl12 => 0x00,
        Address::TosPriorityCtrl13 => 0x00,
        Address::TosPriorityCtrl14 => 0x00,
        Address::TosPriorityCtrl15 => 0x00,
        Address::MacAddr0 => 0x00,
        Address::MacAddr1 => 0x10,
        Address::MacAddr2 => 0xa1,
        Address::MacAddr3 => 0xff,
        Address::MacAddr4 => 0xff,
        Address::MacAddr5 => 0xff,
        Address::UserDef1 => 0x00,
        Address::UserDef2 => 0x00,
        Address::UserDef3 => 0x00,
        Address::IndirectAccessCtrl0 => 0x00,
        Address::IndirectAccessCtrl1 => 0x00,
        Address::IndirectData8 => 0x00,
        Address::IndirectData7 => 0x00,
        Address::IndirectData6 => 0x00,
        Address::IndirectData5 => 0x00,
        Address::IndirectData4 => 0x00,
        Address::IndirectData3 => 0x00,
        Address::IndirectData2 => 0x00,
        Address::IndirectData1 => 0x00,
        Address::IndirectData0 => 0x00,
        Address::Station1MacAddr0 => 0x00,
        Address::Station1MacAddr1 => 0x00,
        Address::Station1MacAddr2 => 0x00,
        Address::Station1MacAddr3 => 0x00,
        Address::Station1MacAddr4 => 0x00,
        Address::Station1MacAddr5 => 0x00,
        Address::Station2MacAddr0 => 0x00,
        Address::Station2MacAddr1 => 0x00,
        Address::Station2MacAddr2 => 0x00,
        Address::Station2MacAddr3 => 0x00,
        Address::Station2MacAddr4 => 0x00,
        Address::Station2MacAddr5 => 0x00,
        Address::Mode => 0x00,
        Address::HighPriorityPacketBufferQ3 => 0x45,
        Address::HighPriorityPacketBufferQ2 => 0x35,
        Address::HighPriorityPacketBufferQ1 => 0x25,
        Address::HighPriorityPacketBufferQ0 => 0x15,
        Address::PmUsageFlowCtrlSelectMode1 => 0x00,
        Address::PmUsageFlowCtrlSelectMode2 => 0x00,
        Address::PmUsageFlowCtrlSelectMode3 => 0x00,
        Address::PmUsageFlowCtrlSelectMode4 => 0x00,
        Address::Port1TxqSplitForQ3 => 0x80,
        Address::Port1TxqSplitForQ2 => 0x80,
        Address::Port1TxqSplitForQ1 => 0x80,
        Address::Port1TxqSplitForQ0 => 0x80,
        Address::Port2TxqSplitForQ3 => 0x80,
        Address::Port2TxqSplitForQ2 => 0x80,
        Address::Port2TxqSplitForQ1 => 0x80,
        Address::Port2TxqSplitForQ0 => 0x80,
        Address::Port3TxqSplitForQ3 => 0x80,
        Address::Port3TxqSplitForQ2 => 0x80,
        Address::Port3TxqSplitForQ1 => 0x80,
        Address::Port3TxqSplitForQ0 => 0x80,
        Address::InterruptEnable => 0x00,
        Address::LinkChangeInterrupt => 0x00,
        Address::ForcePauseOff => 0x00,
        Address::FiberSignalThreshold => 0x00,
        Address::InternalLdoCtrl => 0x00,
        Address::InsertSrcPvid => 0x00,
        Address::PwrMgmtAndLedMode => 0x00,
        Address::SleepMode => 0x50,
        Address::FwdInvalidVidFrameAndHostMode => 0x00,
    }
}

/// The bits of the register at `a` that belong to a writable field with a default.
pub open spec fn reset_mask(a: Address) -> u8 {
    match a {
        Address::ChipId0 => 0x00,
        Address::ChipId1 => 0x01,
        Address::Gc0 => 0xb8,
        Address::Gc1 => 0xff,
        Address::Gc2 => 0xfe,
        Address::Gc3 => 0xc9,
        Address::Gc4 => 0x7f,
        Address::Gc5 => 0xff,
        Address::Gc9 => 0xc0,
        Address::Gc10 => 0xff,
        Address::Gc11 => 0xff,
        Address::Gc12 => 0xc7,
        Address::Gc13 => 0xf8,
        Address::Port1Ctrl0 => 0xff,
        Address::Port1Ctrl1 => 0xff,
        Address::Port1Ctrl2 => 0xef,
        Address::Port1Ctrl3 => 0xff,
        Address::Port1Ctrl4 => 0xff,
        Address::Port1Ctrl5 => 0xff,
        Address::Port1Q0IngressRateLimit => 0x7f,
        Address::Port1Q1IngressRateLimit => 0x7f,
        Address::Port1Q2IngressRateLimit => 0x7f,
        Address::Port1Q3IngressRateLimit => 0x7f,
        Address::Port1PhySpecial => 0x1a,
        Address::Port1LinkMdResult => 0x00,
        Address::Port1Ctrl12 => 0x1f,
        Address::Port1Ctrl13 => 0xff,
        Address::Port1Status0 => 0x00,
        Address::Port1Status1 => 0x00,
        Address::Port2Ctrl0 => 0xff,
        Address::Port2Ctrl1 => 0xff,
        Address::Port2Ctrl2 => 0xef,
        Address::Port2Ctrl3 => 0xff,
        Address::Port2Ctrl4 => 0xff,
        Address::Port2Ctrl5 => 0xff,
        Address::Port2Q0IngressRateLimit => 0x7f,
        Address::Port2Q1IngressRateLimit => 0x7f,
        Address::Port2Q2IngressRateLimit => 0x7f,
        Address::Port2Q3IngressRateLimit => 0x7f,
        Address::Port2PhySpecial => 0x1a,
        Address::Port2LinkMdResult => 0x00,
        Address::Port2Ctrl12 => 0x1f,
        Address::Port2Ctrl13 => 0xff,
        Address::Port2Status0 => 0x00,
        Address::Port2Status1 => 0x00,
        Address::Port3Ctrl0 => 0xff,
        Address::Port3Ctrl1 => 0xff,
        Address::Port3Ctrl2 => 0xef,
        Address::Port3Ctrl3 => 0xff,
        Address::Port3Ctrl4 => 0xff,
        Address::Port3Ctrl5 => 0xff,
        Address::Port3Q0IngressRateLimit => 0xff,
        Address::Port3Q1IngressRateLimit => 0x7f,
        Address::Port3Q2IngressRateLimit => 0x7f,
        Address::Port3Q3IngressRateLimit => 0x7f,
        Address::Port3Status1 => 0x00,
        Address::Reset => 0x11,
        Address::TosPriorityCtrl0 => 0xff,
        Address::TosPriorityCtrl1 => 0xff,
        Address::TosPriorityCtrl2 => 0xff,
        Address::TosPriorityCtrl3 => 0xff,
        Address::TosPriorityCtrl4 => 0xff,
        Address::TosPriorityCtrl5 => 0xff,
        Address::TosPriorityCtrl6 => 0xff,
        Address::TosPriorityCtrl7 => 0xff,
        Address::TosPriorityCtrl8 => 0xff,
        Address::TosPriorityCtrl9 => 0xff,
        Address::TosPriorityCtrl10 => 0xff,
        Address::TosPriorityCtrl11 => 0xff,
        Address::TosPriorityCtrl12 => 0xff,
        Address::TosPriorityCtrl13 => 0xff,
        Address::TosPriorityCtrl14 => 0xff,
        Address::TosPriorityCtrl15 => 0xff,
        Address::MacAddr0 => 0xff,
        Address::MacAddr1 => 0xff,
        Address::MacAddr2 => 0xff,
        Address::MacAddr3 => 0xff,
        Address::MacAddr4 => 0xff,
        Address::MacAddr5 => 0xff,
        Address::UserDef1 => 0xff,
        Address::UserDef2 => 0xff,
        Address::UserDef3 => 0xff,
        Address::IndirectAccessCtrl0 => 0x1f,
        Address::IndirectAccessCtrl1 => 0xff,
        Address::IndirectData8 => 0x07,
        Address::IndirectData7 => 0xff,
        Address::IndirectData6 => 0xff,
        Address::IndirectData5 => 0xff,
        Address::IndirectData4 => 0xff,
        Address::IndirectData3 => 0xff,
        Address::IndirectData2 => 0xff,
        Address::IndirectData1 => 0xff,
        Address::IndirectData0 => 0xff,
        Address::Station1MacAddr0 => 0x00,
        Address::Station1MacAddr1 => 0x00,
        Address::Station1MacAddr2 => 0x00,
        Address::Station1MacAddr3 => 0x00,
        Address::Station1MacAddr4 => 0x00,
        Address::Station1MacAddr5 => 0x00,
        Address::Station2MacAddr0 => 0x00,
        Address::Station2MacAddr1 => 0x00,
        Address::Station2MacAddr2 => 0x00,
        Address::Station2MacAddr3 => 0x00,
        Address::Station2MacAddr4 => 0x00,
        Address::Station2MacAddr5 => 0x00,
        Address::Mode => 0x00,
        Address::HighPriorityPacketBufferQ3 => 0x00,
        Address::HighPriorityPacketBufferQ2 => 0x00,
        Address::HighPriorityPacketBufferQ1 => 0x00,
        Address::HighPriorityPacketBufferQ0 => 0x00,
        Address::PmUsageFlowCtrlSelectMode1 => 0x00,
        Address::PmUsageFlowCtrlSelectMode2 => 0x00,
        Address::PmUsageFlowCtrlSelectMode3 => 0x00,
        Address::PmUsageFlowCtrlSelectMode4 => 0x00,
        Address::Port1TxqSplitForQ3 => 0x80,
        Address::Port1TxqSplitForQ2 => 0x80,
        Address::Port1TxqSplitForQ1 => 0x80,
        Address::Port1TxqSplitForQ0 => 0x80,
        Address::Port2TxqSplitForQ3 => 0x80,
        Address::Port2TxqSplitForQ2 => 0x80,
        Address::Port2TxqSplitForQ1 => 0x80,
        Address::Port2TxqSplitForQ0 => 0x80,
        Address::Port3TxqSplitForQ3 => 0x80,
        Address::Port3TxqSplitForQ2 => 0x80,
        Address::Port3TxqSplitForQ1 => 0x80,
        Address::Port3TxqSplitForQ0 => 0x80,
        Address::InterruptEnable => 0xff,
        Address::LinkChangeInterrupt => 0x87,
        Address::ForcePauseOff => 0xff,
        Address::FiberSignalThreshold => 0xc0,
        Address::InternalLdoCtrl => 0x40,
        Address::InsertSrcPvid => 0x3f,
        Address::PwrMgmtAndLedMode => 0xff,
        Address::SleepMode => 0xff,
        Address::FwdInvalidVidFrameAndHostMode => 0x7c,
    }
}

/// The slot of the register at `a` in a map.
pub open spec fn index_of(a: Address) -> int {
    match a {
        Address::ChipId0 => 0,
        Address::ChipId1 => 1,
        Address::Gc0 => 2,
        Address::Gc1 => 3,
        Address::Gc2 => 4,
        Address::Gc3 => 5,
        Address::Gc4 => 6,
        Address::Gc5 => 7,
        Address::Gc9 => 8,
        Address::Gc10 => 9,
        Address::Gc11 => 10,
        Address::Gc12 => 11,
        Address::Gc13 => 12,
        Address::Port1Ctrl0 => 13,
        Address::Port1Ctrl1 => 14,
        Address::Port1Ctrl2 => 15,
        Address::Port1Ctrl3 => 16,
        Address::Port1Ctrl4 => 17,
        Address::Port1Ctrl5 => 18,
        Address::Port1Q0IngressRateLimit => 19,
        Address::Port1Q1IngressRateLimit => 20,
        Address::Port1Q2IngressRateLimit => 21,
        Address::Port1Q3IngressRateLimit => 22,
        Address::Port1PhySpecial => 23,
        Address::Port1LinkMdResult => 24,
        Address::Port1Ctrl12 => 25,
        Address::Port1Ctrl13 => 26,
        Address::Port1Status0 => 27,
        Address::Port1Status1 => 28,
        Address::Port2Ctrl0 => 29,
        Address::Port2Ctrl1 => 30,
        Address::Port2Ctrl2 => 31,
        Address::Port2Ctrl3 => 32,
        Address::Port2Ctrl4 => 33,
        Address::Port2Ctrl5 => 34,
        Address::Port2Q0IngressRateLimit => 35,
        Address::Port2Q1IngressRateLimit => 36,
        Address::Port2Q2IngressRateLimit => 37,
        Address::Port2Q3IngressRateLimit => 38,
        Address::Port2PhySpecial => 39,
        Address::Port2LinkMdResult => 40,
        Address::Port2Ctrl12 => 41,
        Address::Port2Ctrl13 => 42,
        Address::Port2Status0 => 43,
        Address::Port2Status1 => 44,
        Address::Port3Ctrl0 => 45,
        Address::Port3Ctrl1 => 46,
        Address::Port3Ctrl2 => 47,
        Address::Port3Ctrl3 => 48,
        Address::Port3Ctrl4 => 49,
        Address::Port3Ctrl5 => 50,
        Address::Port3Q0IngressRateLimit => 51,
        Address::Port3Q1IngressRateLimit => 52,
        Address::Port3Q2IngressRateLimit => 53,
        Address::Port3Q3IngressRateLimit => 54,
        Address::Port3Status1 => 55,
        Address::Reset => 56,
        Address::TosPriorityCtrl0 => 57,
        Address::TosPriorityCtrl1 => 58,
        Address::TosPriorityCtrl2 => 59,
        Address::TosPriorityCtrl3 => 60,
        Address::TosPriorityCtrl4 => 61,
        Address::TosPriorityCtrl5 => 62,
        Address::TosPriorityCtrl6 => 63,
        Address::TosPriorityCtrl7 => 64,
        Address::TosPriorityCtrl8 => 65,
        Address::TosPriorityCtrl9 => 66,
        Address::TosPriorityCtrl10 => 67,
        Address::TosPriorityCtrl11 => 68,
        Address::TosPriorityCtrl12 => 69,
        Address::TosPriorityCtrl13 => 70,
        Address::TosPriorityCtrl14 => 71,
        Address::TosPriorityCtrl15 => 72,
        Address::MacAddr0 => 73,
        Address::MacAddr1 => 74,
        Address::MacAddr2 => 75,
        Address::MacAddr3 => 76,
        Address::MacAddr4 => 77,
        Address::MacAddr5 => 78,
        Address::UserDef1 => 79,
        Address::UserDef2 => 80,
        Address::UserDef3 => 81,
        Address::IndirectAccessCtrl0 => 82,
        Address::IndirectAccessCtrl1 => 83,
        Address::IndirectData8 => 84,
        Address::IndirectData7 => 85,
        Address::IndirectData6 => 86,
        Address::IndirectData5 => 87,
        Address::IndirectData4 => 88,
        Address::IndirectData3 => 89,
        Address::IndirectData2 => 90,
        Address::IndirectData1 => 91,
        Address::IndirectData0 => 92,
        Address::Station1MacAddr0 => 93,
        Address::Station1MacAddr1 => 94,
        Address::Station1MacAddr2 => 95,
        Address::Station1MacAddr3 => 96,
        Address::Station1MacAddr4 => 97,
        Address::Station1MacAddr5 => 98,
        Address::Station2MacAddr0 => 99,
        Address::Station2MacAddr1 => 100,
        Address::Station2MacAddr2 => 101,
        Address::Station2MacAddr3 => 102,
        Address::Station2MacAddr4 => 103,
        Address::Station2MacAddr5 => 104,
        Address::Mode => 105,
        Address::HighPriorityPacketBufferQ3 => 106,
        Address::HighPriorityPacketBufferQ2 => 107,
        Address::HighPriorityPacketBufferQ1 => 108,
        Address::HighPriorityPacketBufferQ0 => 109,
        Address::PmUsageFlowCtrlSelectMode1 => 110,
        Address::PmUsageFlowCtrlSelectMode2 => 111,
        Address::PmUsageFlowCtrlSelectMode3 => 112,
        Address::PmUsageFlowCtrlSelectMode4 => 113,
        Address::Port1TxqSplitForQ3 => 114,
        Address::Port1TxqSplitForQ2 => 115,
        Address::Port1TxqSplitForQ1 => 116,
        Address::Port1TxqSplitForQ0 => 117,
        Address::Port2TxqSplitForQ3 => 118,
        Address::Port2TxqSplitForQ2 => 119,
        Address::Port2TxqSplitForQ1 => 120,
        Address::Port2TxqSplitForQ0 => 121,
        Address::Port3TxqSplitForQ3 => 122,
        Address::Port3TxqSplitForQ2 => 123,
        Address::Port3TxqSplitForQ1 => 124,
        Address::Port3TxqSplitForQ0 => 125,
        Address::InterruptEnable => 126,
        Address::LinkChangeInterrupt => 127,
        Address::ForcePauseOff => 128,
        Address::FiberSignalThreshold => 129,
        Address::InternalLdoCtrl => 130,
        Address::InsertSrcPvid => 131,
        Address::PwrMgmtAndLedMode => 132,
        Address::SleepMode => 133,
        Address::FwdInvalidVidFrameAndHostMode => 134,
    }
}

/// The address whose register is held in slot `i` of a map.
pub open spec fn address_at(i: int) -> Address {
    if i == 0 {
        Address::ChipId0
    } else if i == 1 {
        Address::ChipId1
    } else if i == 2 {
        Address::Gc0
    } else if i == 3 {
        Address::Gc1
    } else if i == 4 {
        Address::Gc2
    } else if i == 5 {
        Address::Gc3
    } else if i == 6 {
        Address::Gc4
    } else if i == 7 {
        Address::Gc5
    } else if i == 8 {
        Address::Gc9
    } else if i == 9 {
        Address::Gc10
    } else if i == 10 {
        Address::Gc11
    } else if i == 11 {
        Address::Gc12
    } else if i == 12 {
        Address::Gc13
    } else if i == 13 {
        Address::Port1Ctrl0
    } else if i == 14 {
        Address::Port1Ctrl1
    } else if i == 15 {
        Address::Port1Ctrl2
    } else if i == 16 {
        Address::Port1Ctrl3
    } else if i == 17 {
        Address::Port1Ctrl4
    } else if i == 18 {
        Address::Port1Ctrl5
    } else if i == 19 {
        Address::Port1Q0IngressRateLimit
    } else if i == 20 {
        Address::Port1Q1IngressRateLimit
    } else if i == 21 {
        Address::Port1Q2IngressRateLimit
    } else if i == 22 {
        Address::Port1Q3IngressRateLimit
    } else if i == 23 {
        Address::Port1PhySpecial
    } else if i == 24 {
        Address::Port1LinkMdResult
    } else if i == 25 {
        Address::Port1Ctrl12
    } else if i == 26 {
        Address::Port1Ctrl13
    } else if i == 27 {
        Address::Port1Status0
    } else if i == 28 {
        Address::Port1Status1
    } else if i == 29 {
        Address::Port2Ctrl0
    } else if i == 30 {
        Address::Port2Ctrl1
    } else if i == 31 {
        Address::Port2Ctrl2
    } else if i == 32 {
        Address::Port2Ctrl3
    } else if i == 33 {
        Address::Port2Ctrl4
    } else if i == 34 {
        Address::Port2Ctrl5
    } else if i == 35 {
        Address::Port2Q0IngressRateLimit
    } else if i == 36 {
        Address::Port2Q1IngressRateLimit
    } else if i == 37 {
        Address::Port2Q2IngressRateLimit
    } else if i == 38 {
        Address::Port2Q3IngressRateLimit
    } else if i == 39 {
        Address::Port2PhySpecial
    } else if i == 40 {
        Address::Port2LinkMdResult
    } else if i == 41 {
        Address::Port2Ctrl12
    } else if i == 42 {
        Address::Port2Ctrl13
    } else if i == 43 {
        Address::Port2Status0
    } else if i == 44 {
        Address::Port2Status1
    } else if i == 45 {
        Address::Port3Ctrl0
    } else if i == 46 {
        Address::Port3Ctrl1
    } else if i == 47 {
        Address::Port3Ctrl2
    } else if i == 48 {
        Address::Port3Ctrl3
    } else if i == 49 {
        Address::Port3Ctrl4
    } else if i == 50 {
        Address::Port3Ctrl5
    } else if i == 51 {
        Address::Port3Q0IngressRateLimit
    } else if i == 52 {
        Address::Port3Q1IngressRateLimit
    } else if i == 53 {
        Address::Port3Q2IngressRateLimit
    } else if i == 54 {
        Address::Port3Q3IngressRateLimit
    } else if i == 55 {
        Address::Port3Status1
    } else if i == 56 {
        Address::Reset
    } else if i == 57 {
        Address::TosPriorityCtrl0
    } else if i == 58 {
        Address::TosPriorityCtrl1
    } else if i == 59 {
        Address::TosPriorityCtrl2
    } else if i == 60 {
        Address::TosPriorityCtrl3
    } else if i == 61 {
        Address::TosPriorityCtrl4
    } else if i == 62 {
        Address::TosPriorityCtrl5
    } else if i == 63 {
        Address::TosPriorityCtrl6
    } else if i == 64 {
        Address::TosPriorityCtrl7
    } else if i == 65 {
        Address::TosPriorityCtrl8
    } else if i == 66 {
        Address::TosPriorityCtrl9
    } else if i == 67 {
        Address::TosPriorityCtrl10
    } else if i == 68 {
        Address::TosPriorityCtrl11
    } else if i == 69 {
        Address::TosPriorityCtrl12
    } else if i == 70 {
        Address::TosPriorityCtrl13
    } else if i == 71 {
        Address::TosPriorityCtrl14
    } else if i == 72 {
        Address::TosPriorityCtrl15
    } else if i == 73 {
        Address::MacAddr0
    } else if i == 74 {
        Address::MacAddr1
    } else if i == 75 {
        Address::MacAddr2
    } else if i == 76 {
        Address::MacAddr3
    } else if i == 77 {
        Address::MacAddr4
    } else if i == 78 {
        Address::MacAddr5
    } else if i == 79 {
        Address::UserDef1
    } else if i == 80 {
        Address::UserDef2
    } else if i == 81 {
        Address::UserDef3
    } else if i == 82 {
        Address::IndirectAccessCtrl0
    } else if i == 83 {
        Address::IndirectAccessCtrl1
    } else if i == 84 {
        Address::IndirectData8
    } else if i == 85 {
        Address::IndirectData7
    } else if i == 86 {
        Address::IndirectData6
    } else if i == 87 {
        Address::IndirectData5
    } else if i == 88 {
        Address::IndirectData4
    } else if i == 89 {
        Address::IndirectData3
    } else if i == 90 {
        Address::IndirectData2
    } else if i == 91 {
        Address::IndirectData1
    } else if i == 92 {
        Address::IndirectData0
    } else if i == 93 {
        Address::Station1MacAddr0
    } else if i == 94 {
        Address::Station1MacAddr1
    } else if i == 95 {
        Address::Station1MacAddr2
    } else if i == 96 {
        Address::Station1MacAddr3
    } else if i == 97 {
        Address::Station1MacAddr4
    } else if i == 98 {
        Address::Station1MacAddr5
    } else if i == 99 {
        Address::Station2MacAddr0
    } else if i == 100 {
        Address::Station2MacAddr1
    } else if i == 101 {
        Address::Station2MacAddr2
    } else if i == 102 {
        Address::Station2MacAddr3
    } else if i == 103 {
        Address::Station2MacAddr4
    } else if i == 104 {
        Address::Station2MacAddr5
    } else if i == 105 {
        Address::Mode
    } else if i == 106 {
        Address::HighPriorityPacketBufferQ3
    } else if i == 107 {
        Address::HighPriorityPacketBufferQ2
    } else if i == 108 {
        Address::HighPriorityPacketBufferQ1
    } else if i == 109 {
        Address::HighPriorityPacketBufferQ0
    } else if i == 110 {
        Address::PmUsageFlowCtrlSelectMode1
    } else if i == 111 {
        Address::PmUsageFlowCtrlSelectMode2
    } else if i == 112 {
        Address::PmUsageFlowCtrlSelectMode3
    } else if i == 113 {
        Address::PmUsageFlowCtrlSelectMode4
    } else if i == 114 {
        Address::Port1TxqSplitForQ3
    } else if i == 115 {
        Address::Port1TxqSplitForQ2
    } else if i == 116 {
        Address::Port1TxqSplitForQ1
    } else if i == 117 {
        Address::Port1TxqSplitForQ0
    } else if i == 118 {
        Address::Port2TxqSplitForQ3
    } else if i == 119 {
        Address::Port2TxqSplitForQ2
    } else if i == 120 {
        Address::Port2TxqSplitForQ1
    } else if i == 121 {
        Address::Port2TxqSplitForQ0
    } else if i == 122 {
        Address::Port3TxqSplitForQ3
    } else if i == 123 {
        Address::Port3TxqSplitForQ2
    } else if i == 124 {
        Address::Port3TxqSplitForQ1
    } else if i == 125 {
        Address::Port3TxqSplitForQ0
    } else if i == 126 {
        Address::InterruptEnable
    } else if i == 127 {
        Address::LinkChangeInterrupt
    } else if i == 128 {
        Address::ForcePauseOff
    } else if i == 129 {
        Address::FiberSignalThreshold
    } else if i == 130 {
        Address::InternalLdoCtrl
    } else if i == 131 {
        Address::InsertSrcPvid
    } else if i == 132 {
        Address::PwrMgmtAndLedMode
    } else if i == 133 {
        Address::SleepMode
    } else {
        Address::FwdInvalidVidFrameAndHostMode
    }
}

/// The state of the register at `a` holding the raw word `v`.
pub open spec fn state_of(a: Address, v: u8) -> State {
    match a {
        Address::ChipId0 => State::ChipId0(<ChipId0 as Register>::spec_from_bits(v)),
        Address::ChipId1 => State::ChipId1(<ChipId1 as Register>::spec_from_bits(v)),
        Address::Gc0 => State::Gc0(<Gc0 as Register>::spec_from_bits(v)),
        Address::Gc1 => State::Gc1(<Gc1 as Register>::spec_from_bits(v)),
        Address::Gc2 => State::Gc2(<Gc2 as Register>::spec_from_bits(v)),
        Address::Gc3 => State::Gc3(<Gc3 as Register>::spec_from_bits(v)),
        Address::Gc4 => State::Gc4(<Gc4 as Register>::spec_from_bits(v)),
        Address::Gc5 => State::Gc5(<Gc5 as Register>::spec_from_bits(v)),
        Address::Gc9 => State::Gc9(<Gc9 as Register>::spec_from_bits(v)),
        Address::Gc10 => State::Gc10(<Gc10 as Register>::spec_from_bits(v)),
        Address::Gc11 => State::Gc11(<Gc11 as Register>::spec_from_bits(v)),
        Address::Gc12 => State::Gc12(<Gc12 as Register>::spec_from_bits(v)),
        Address::Gc13 => State::Gc13(<Gc13 as Register>::spec_from_bits(v)),
        Address::Port1Ctrl0 => State::Port1Ctrl0(<Port1Ctrl0 as Register>::spec_from_bits(v)),
        Address::Port1Ctrl1 => State::Port1Ctrl1(<Port1Ctrl1 as Register>::spec_from_bits(v)),
        Address::Port1Ctrl2 => State::Port1Ctrl2(<Port1Ctrl2 as Register>::spec_from_bits(v)),
        Address::Port1Ctrl3 => State::Port1Ctrl3(<Port1Ctrl3 as Register>::spec_from_bits(v)),
        Address::Port1Ctrl4 => State::Port1Ctrl4(<Port1Ctrl4 as Register>::spec_from_bits(v)),
        Address::Port1Ctrl5 => State::Port1Ctrl5(<Port1Ctrl5 as Register>::spec_from_bits(v)),
        Address::Port1Q0IngressRateLimit => State::Port1Q0IngressRateLimit(<Port1Q0IngressRateLimit as Register>::spec_from_bits(v)),
        Address::Port1Q1IngressRateLimit => State::Port1Q1IngressRateLimit(<Port1Q1IngressRateLimit as Register>::spec_from_bits(v)),
        Address::Port1Q2IngressRateLimit => State::Port1Q2IngressRateLimit(<Port1Q2IngressRateLimit as Register>::spec_from_bits(v)),
        Address::Port1Q3IngressRateLimit => State::Port1Q3IngressRateLimit(<Port1Q3IngressRateLimit as Register>::spec_from_bits(v)),
        Address::Port1PhySpecial => State::Port1PhySpecial(<Port1PhySpecial as Register>::spec_from_bits(v)),
        Address::Port1LinkMdResult => State::Port1LinkMdResult(<Port1LinkMdResult as Register>::spec_from_bits(v)),
        Address::Port1Ctrl12 => State::Port1Ctrl12(<Port1Ctrl12 as Register>::spec_from_bits(v)),
        Address::Port1Ctrl13 => State::Port1Ctrl13(<Port1Ctrl13 as Register>::spec_from_bits(v)),
        Address::Port1Status0 => State::Port1Status0(<Port1Status0 as Register>::spec_from_bits(v)),
        Address::Port1Status1 => State::Port1Status1(<Port1Status1 as Register>::spec_from_bits(v)),
        Address::Port2Ctrl0 => State::Port2Ctrl0(<Port2Ctrl0 as Register>::spec_from_bits(v)),
        Address::Port2Ctrl1 => State::Port2Ctrl1(<Port2Ctrl1 as Register>::spec_from_bits(v)),
        Address::Port2Ctrl2 => State::Port2Ctrl2(<Port2Ctrl2 as Register>::spec_from_bits(v)),
        Address::Port2Ctrl3 => State::Port2Ctrl3(<Port2Ctrl3 as Register>::spec_from_bits(v)),
        Address::Port2Ctrl4 => State::Port2Ctrl4(<Port2Ctrl4 as Register>::spec_from_bits(v)),
        Address::Port2Ctrl5 => State::Port2Ctrl5(<Port2Ctrl5 as Register>::spec_from_bits(v)),
        Address::Port2Q0IngressRateLimit => State::Port2Q0IngressRateLimit(<Port2Q0IngressRateLimit as Register>::spec_from_bits(v)),
        Address::Port2Q1IngressRateLimit => State::Port2Q1IngressRateLimit(<Port2Q1IngressRateLimit as Register>::spec_from_bits(v)),
        Address::Port2Q2IngressRateLimit => State::Port2Q2IngressRateLimit(<Port2Q2IngressRateLimit as Register>::spec_from_bits(v)),
        Address::Port2Q3IngressRateLimit => State::Port2Q3IngressRateLimit(<Port2Q3IngressRateLimit as Register>::spec_from_bits(v)),
        Address::Port2PhySpecial => State::Port2PhySpecial(<Port2PhySpecial as Register>::spec_from_bits(v)),
        Address::Port2LinkMdResult => State::Port2LinkMdResult(<Port2LinkMdResult as Register>::spec_from_bits(v)),
        Address::Port2Ctrl12 => State::Port2Ctrl12(<Port2Ctrl12 as Register>::spec_from_bits(v)),
        Address::Port2Ctrl13 => State::Port2Ctrl13(<Port2Ctrl13 as Register>::spec_from_bits(v)),
        Address::Port2Status0 => State::Port2Status0(<Port2Status0 as Register>::spec_from_bits(v)),
        Address::Port2Status1 => State::Port2Status1(<Port2Status1 as Register>::spec_from_bits(v)),
        Address::Port3Ctrl0 => State::Port3Ctrl0(<Port3Ctrl0 as Register>::spec_from_bits(v)),
        Address::Port3Ctrl1 => State::Port3Ctrl1(<Port3Ctrl1 as Register>::spec_from_bits(v)),
        Address::Port3Ctrl2 => State::Port3Ctrl2(<Port3Ctrl2 as Register>::spec_from_bits(v)),
        Address::Port3Ctrl3 => State::Port3Ctrl3(<Port3Ctrl3 as Register>::spec_from_bits(v)),
        Address::Port3Ctrl4 => State::Port3Ctrl4(<Port3Ctrl4 as Register>::spec_from_bits(v)),
        Address::Port3Ctrl5 => State::Port3Ctrl5(<Port3Ctrl5 as Register>::spec_from_bits(v)),
        Address::Port3Q0IngressRateLimit => State::Port3Q0IngressRateLimit(<Port3Q0IngressRateLimit as Register>::spec_from_bits(v)),
        Address::Port3Q1IngressRateLimit => State::Port3Q1IngressRateLimit(<Port3Q1IngressRateLimit as Register>::spec_from_bits(v)),
        Address::Port3Q2IngressRateLimit => State::Port3Q2IngressRateLimit(<Port3Q2IngressRateLimit as Register>::spec_from_bits(v)),
        Address::Port3Q3IngressRateLimit => State::Port3Q3IngressRateLimit(<Port3Q3IngressRateLimit as Register>::spec_from_bits(v)),
        Address::Port3Status1 => State::Port3Status1(<Port3Status1 as Register>::spec_from_bits(v)),
        Address::Reset => State::Reset(<Reset as Register>::spec_from_bits(v)),
        Address::TosPriorityCtrl0 => State::TosPriorityCtrl0(<TosPriorityCtrl0 as Register>::spec_from_bits(v)),
        Address::TosPriorityCtrl1 => State::TosPriorityCtrl1(<TosPriorityCtrl1 as Register>::spec_from_bits(v)),
        Address::TosPriorityCtrl2 => State::TosPriorityCtrl2(<TosPriorityCtrl2 as Register>::spec_from_bits(v)),
        Address::TosPriorityCtrl3 => State::TosPriorityCtrl3(<TosPriorityCtrl3 as Register>::spec_from_bits(v)),
        Address::TosPriorityCtrl4 => State::TosPriorityCtrl4(<TosPriorityCtrl4 as Register>::spec_from_bits(v)),
        Address::TosPriorityCtrl5 => State::TosPriorityCtrl5(<TosPriorityCtrl5 as Register>::spec_from_bits(v)),
        Address::TosPriorityCtrl6 => State::TosPriorityCtrl6(<TosPriorityCtrl6 as Register>::spec_from_bits(v)),
        Address::TosPriorityCtrl7 => State::TosPriorityCtrl7(<TosPriorityCtrl7 as Register>::spec_from_bits(v)),
        Address::TosPriorityCtrl8 => State::TosPriorityCtrl8(<TosPriorityCtrl8 as Register>::spec_from_bits(v)),
        Address::TosPriorityCtrl9 => State::TosPriorityCtrl9(<TosPriorityCtrl9 as Register>::spec_from_bits(v)),
        Address::TosPriorityCtrl10 => State::TosPriorityCtrl10(<TosPriorityCtrl10 as Register>::spec_from_bits(v)),
        Address::TosPriorityCtrl11 => State::TosPriorityCtrl11(<TosPriorityCtrl11 as Register>::spec_from_bits(v)),
        Address::TosPriorityCtrl12 => State::TosPriorityCtrl12(<TosPriorityCtrl12 as Register>::spec_from_bits(v)),
        Address::TosPriorityCtrl13 => State::TosPriorityCtrl13(<TosPriorityCtrl13 as Register>::spec_from_bits(v)),
        Address::TosPriorityCtrl14 => State::TosPriorityCtrl14(<TosPriorityCtrl14 as Register>::spec_from_bits(v)),
        Address::TosPriorityCtrl15 => State::TosPriorityCtrl15(<TosPriorityCtrl15 as Register>::spec_from_bits(v)),
        Address::MacAddr0 => State::MacAddr0(<MacAddr0 as Register>::spec_from_bits(v)),
        Address::MacAddr1 => State::MacAddr1(<MacAddr1 as Register>::spec_from_bits(v)),
        Address::MacAddr2 => State::MacAddr2(<MacAddr2 as Register>::spec_from_bits(v)),
        Address::MacAddr3 => State::MacAddr3(<MacAddr3 as Register>::spec_from_bits(v)),
        Address::MacAddr4 => State::MacAddr4(<MacAddr4 as Register>::spec_from_bits(v)),
        Address::MacAddr5 => State::MacAddr5(<MacAddr5 as Register>::spec_from_bits(v)),
        Address::UserDef1 => State::UserDef1(<UserDef1 as Register>::spec_from_bits(v)),
        Address::UserDef2 => State::UserDef2(<UserDef2 as Register>::spec_from_bits(v)),
        Address::UserDef3 => State::UserDef3(<UserDef3 as Register>::spec_from_bits(v)),
        Address::IndirectAccessCtrl0 => State::IndirectAccessCtrl0(<IndirectAccessCtrl0 as Register>::spec_from_bits(v)),
        Address::IndirectAccessCtrl1 => State::IndirectAccessCtrl1(<IndirectAccessCtrl1 as Register>::spec_from_bits(v)),
        Address::IndirectData8 => State::IndirectData8(<IndirectData8 as Register>::spec_from_bits(v)),
        Address::IndirectData7 => State::IndirectData7(<IndirectData7 as Register>::spec_from_bits(v)),
        Address::IndirectData6 => State::IndirectData6(<IndirectData6 as Register>::spec_from_bits(v)),
        Address::IndirectData5 => State::IndirectData5(<IndirectData5 as Register>::spec_from_bits(v)),
        Address::IndirectData4 => State::IndirectData4(<IndirectData4 as Register>::spec_from_bits(v)),
        Address::IndirectData3 => State::IndirectData3(<IndirectData3 as Register>::spec_from_bits(v)),
        Address::IndirectData2 => State::IndirectData2(<IndirectData2 as Register>::spec_from_bits(v)),
        Address::IndirectData1 => State::IndirectData1(<IndirectData1 as Register>::spec_from_bits(v)),
        Address::IndirectData0 => State::IndirectData0(<IndirectData0 as Register>::spec_from_bits(v)),
        Address::Station1MacAddr0 => State::Station1MacAddr0(<Station1MacAddr0 as Register>::spec_from_bits(v)),
        Address::Station1MacAddr1 => State::Station1MacAddr1(<Station1MacAddr1 as Register>::spec_from_bits(v)),
        Address::Station1MacAddr2 => State::Station1MacAddr2(<Station1MacAddr2 as Register>::spec_from_bits(v)),
        Address::Station1MacAddr3 => State::Station1MacAddr3(<Station1MacAddr3 as Register>::spec_from_bits(v)),
        Address::Station1MacAddr4 => State::Station1MacAddr4(<Station1MacAddr4 as Register>::spec_from_bits(v)),
        Address::Station1MacAddr5 => State::Station1MacAddr5(<Station1MacAddr5 as Register>::spec_from_bits(v)),
        Address::Station2MacAddr0 => State::Station2MacAddr0(<Station2MacAddr0 as Register>::spec_from_bits(v)),
        Address::Station2MacAddr1 => State::Station2MacAddr1(<Station2MacAddr1 as Register>::spec_from_bits(v)),
        Address::Station2MacAddr2 => State::Station2MacAddr2(<Station2MacAddr2 as Register>::spec_from_bits(v)),
        Address::Station2MacAddr3 => State::Station2MacAddr3(<Station2MacAddr3 as Register>::spec_from_bits(v)),
        Address::Station2MacAddr4 => State::Station2MacAddr4(<Station2MacAddr4 as Register>::spec_from_bits(v)),
        Address::Station2MacAddr5 => State::Station2MacAddr5(<Station2MacAddr5 as Register>::spec_from_bits(v)),
        Address::Mode => State::Mode(<Mode as Register>::spec_from_bits(v)),
        Address::HighPriorityPacketBufferQ3 => State::HighPriorityPacketBufferQ3(<HighPriorityPacketBufferQ3 as Register>::spec_from_bits(v)),
        Address::HighPriorityPacketBufferQ2 => State::HighPriorityPacketBufferQ2(<HighPriorityPacketBufferQ2 as Register>::spec_from_bits(v)),
        Address::HighPriorityPacketBufferQ1 => State::HighPriorityPacketBufferQ1(<HighPriorityPacketBufferQ1 as Register>::spec_from_bits(v)),
        Address::HighPriorityPacketBufferQ0 => State::HighPriorityPacketBufferQ0(<HighPriorityPacketBufferQ0 as Register>::spec_from_bits(v)),
        Address::PmUsageFlowCtrlSelectMode1 => State::PmUsageFlowCtrlSelectMode1(<PmUsageFlowCtrlSelectMode1 as Register>::spec_from_bits(v)),
        Address::PmUsageFlowCtrlSelectMode2 => State::PmUsageFlowCtrlSelectMode2(<PmUsageFlowCtrlSelectMode2 as Register>::spec_from_bits(v)),
        Address::PmUsageFlowCtrlSelectMode3 => State::PmUsageFlowCtrlSelectMode3(<PmUsageFlowCtrlSelectMode3 as Register>::spec_from_bits(v)),
        Address::PmUsageFlowCtrlSelectMode4 => State::PmUsageFlowCtrlSelectMode4(<PmUsageFlowCtrlSelectMode4 as Register>::spec_from_bits(v)),
        Address::Port1TxqSplitForQ3 => State::Port1TxqSplitForQ3(<Port1TxqSplitForQ3 as Register>::spec_from_bits(v)),
        Address::Port1TxqSplitForQ2 => State::Port1TxqSplitForQ2(<Port1TxqSplitForQ2 as Register>::spec_from_bits(v)),
        Address::Port1TxqSplitForQ1 => State::Port1TxqSplitForQ1(<Port1TxqSplitForQ1 as Register>::spec_from_bits(v)),
        Address::Port1TxqSplitForQ0 => State::Port1TxqSplitForQ0(<Port1TxqSplitForQ0 as Register>::spec_from_bits(v)),
        Address::Port2TxqSplitForQ3 => State::Port2TxqSplitForQ3(<Port2TxqSplitForQ3 as Register>::spec_from_bits(v)),
        Address::Port2TxqSplitForQ2 => State::Port2TxqSplitForQ2(<Port2TxqSplitForQ2 as Register>::spec_from_bits(v)),
        Address::Port2TxqSplitForQ1 => State::Port2TxqSplitForQ1(<Port2TxqSplitForQ1 as Register>::spec_from_bits(v)),
        Address::Port2TxqSplitForQ0 => State::Port2TxqSplitForQ0(<Port2TxqSplitForQ0 as Register>::spec_from_bits(v)),
        Address::Port3TxqSplitForQ3 => State::Port3TxqSplitForQ3(<Port3TxqSplitForQ3 as Register>::spec_from_bits(v)),
        Address::Port3TxqSplitForQ2 => State::Port3TxqSplitForQ2(<Port3TxqSplitForQ2 as Register>::spec_from_bits(v)),
        Address::Port3TxqSplitForQ1 => State::Port3TxqSplitForQ1(<Port3TxqSplitForQ1 as Register>::spec_from_bits(v)),
        Address::Port3TxqSplitForQ0 => State::Port3TxqSplitForQ0(<Port3TxqSplitForQ0 as Register>::spec_from_bits(v)),
        Address::InterruptEnable => State::InterruptEnable(<InterruptEnable as Register>::spec_from_bits(v)),
        Address::LinkChangeInterrupt => State::LinkChangeInterrupt(<LinkChangeInterrupt as Register>::spec_from_bits(v)),
        Address::ForcePauseOff => State::ForcePauseOff(<ForcePauseOff as Register>::spec_from_bits(v)),
        Address::FiberSignalThreshold => State::FiberSignalThreshold(<FiberSignalThreshold as Register>::spec_from_bits(v)),
        Address::InternalLdoCtrl => State::InternalLdoCtrl(<InternalLdoCtrl as Register>::spec_from_bits(v)),
        Address::InsertSrcPvid => State::InsertSrcPvid(<InsertSrcPvid as Register>::spec_from_bits(v)),
        Address::PwrMgmtAndLedMode => State::PwrMgmtAndLedMode(<PwrMgmtAndLedMode as Register>::spec_from_bits(v)),
        Address::SleepMode => State::SleepMode(<SleepMode as Register>::spec_from_bits(v)),
        Address::FwdInvalidVidFrameAndHostMode => State::FwdInvalidVidFrameAndHostMode(<FwdInvalidVidFrameAndHostMode as Register>::spec_from_bits(v)),
    }
}

/// Every address is held in its own slot of a map.
pub proof fn lemma_at(i: int)
    requires
        0 <= i < COUNT,
    ensures
        index_of(address_at(i)) == i,
{
}

impl Address {
    /// All register addresses, in the order of their slots in a map.
    pub fn all() -> (v: Vec<Address>)
        ensures
            v@.len() == COUNT,
            forall|i: int| 0 <= i < COUNT ==> v@[i] == address_at(i),
            forall|a: Address| v@.contains(a),
    {
        let mut v: Vec<Address> = Vec::new();
        let mut i: usize = 0;
        while i < COUNT
            invariant
                0 <= i <= COUNT,
                v@.len() == i,
                forall|j: int| 0 <= j < i ==> v@[j] == address_at(j),
            decreases COUNT - i,
        {
            v.push(Address::at(i));
            i += 1;
        }
        assert forall|a: Address| v@.contains(a) by {
            a.lemma_index();
            assert(v@[index_of(a)] == a);
        }
        v
    }

    /// The address whose register is held in slot `i` of a map.
    pub fn at(i: usize) -> (a: Address)
        requires
            i < COUNT,
        ensures
            a == address_at(i as int),
    {
        match i {
            0 => Address::ChipId0,
            1 => Address::ChipId1,
            2 => Address::Gc0,
            3 => Address::Gc1,
            4 => Address::Gc2,
            5 => Address::Gc3,
            6 => Address::Gc4,
            7 => Address::Gc5,
            8 => Address::Gc9,
            9 => Address::Gc10,
            10 => Address::Gc11,
            11 => Address::Gc12,
            12 => Address::Gc13,
            13 => Address::Port1Ctrl0,
            14 => Address::Port1Ctrl1,
            15 => Address::Port1Ctrl2,
            16 => Address::Port1Ctrl3,
            17 => Address::Port1Ctrl4,
            18 => Address::Port1Ctrl5,
            19 => Address::Port1Q0IngressRateLimit,
            20 => Address::Port1Q1IngressRateLimit,
            21 => Address::Port1Q2IngressRateLimit,
            22 => Address::Port1Q3IngressRateLimit,
            23 => Address::Port1PhySpecial,
            24 => Address::Port1LinkMdResult,
            25 => Address::Port1Ctrl12,
            26 => Address::Port1Ctrl13,
            27 => Address::Port1Status0,
            28 => Address::Port1Status1,
            29 => Address::Port2Ctrl0,
            30 => Address::Port2Ctrl1,
            31 => Address::Port2Ctrl2,
            32 => Address::Port2Ctrl3,
            33 => Address::Port2Ctrl4,
            34 => Address::Port2Ctrl5,
            35 => Address::Port2Q0IngressRateLimit,
            36 => Address::Port2Q1IngressRateLimit,
            37 => Address::Port2Q2IngressRateLimit,
            38 => Address::Port2Q3IngressRateLimit,
            39 => Address::Port2PhySpecial,
            40 => Address::Port2LinkMdResult,
            41 => Address::Port2Ctrl12,
            42 => Address::Port2Ctrl13,
            43 => Address::Port2Status0,
            44 => Address::Port2Status1,
            45 => Address::Port3Ctrl0,
            46 => Address::Port3Ctrl1,
            47 => Address::Port3Ctrl2,
            48 => Address::Port3Ctrl3,
            49 => Address::Port3Ctrl4,
            50 => Address::Port3Ctrl5,
            51 => Address::Port3Q0IngressRateLimit,
            52 => Address::Port3Q1IngressRateLimit,
            53 => Address::Port3Q2IngressRateLimit,
            54 => Address::Port3Q3IngressRateLimit,
            55 => Address::Port3Status1,
            56 => Address::Reset,
            57 => Address::TosPriorityCtrl0,
            58 => Address::TosPriorityCtrl1,
            59 => Address::TosPriorityCtrl2,
            60 => Address::TosPriorityCtrl3,
            61 => Address::TosPriorityCtrl4,
            62 => Address::TosPriorityCtrl5,
            63 => Address::TosPriorityCtrl6,
            64 => Address::TosPriorityCtrl7,
            65 => Address::TosPriorityCtrl8,
            66 => Address::TosPriorityCtrl9,
            67 => Address::TosPriorityCtrl10,
            68 => Address::TosPriorityCtrl11,
            69 => Address::TosPriorityCtrl12,
            70 => Address::TosPriorityCtrl13,
            71 => Address::TosPriorityCtrl14,
            72 => Address::TosPriorityCtrl15,
            73 => Address::MacAddr0,
            74 => Address::MacAddr1,
            75 => Address::MacAddr2,
            76 => Address::MacAddr3,
            77 => Address::MacAddr4,
            78 => Address::MacAddr5,
            79 => Address::UserDef1,
            80 => Address::UserDef2,
            81 => Address::UserDef3,
            82 => Address::IndirectAccessCtrl0,
            83 => Address::IndirectAccessCtrl1,
            84 => Address::IndirectData8,
            85 => Address::IndirectData7,
            86 => Address::IndirectData6,
            87 => Address::IndirectData5,
            88 => Address::IndirectData4,
            89 => Address::IndirectData3,
            90 => Address::IndirectData2,
            91 => Address::IndirectData1,
            92 => Address::IndirectData0,
            93 => Address::Station1MacAddr0,
            94 => Address::Station1MacAddr1,
            95 => Address::Station1MacAddr2,
            96 => Address::Station1MacAddr3,
            97 => Address::Station1MacAddr4,
            98 => Address::Station1MacAddr5,
            99 => Address::Station2MacAddr0,
            100 => Address::Station2MacAddr1,
            101 => Address::Station2MacAddr2,
            102 => Address::Station2MacAddr3,
            103 => Address::Station2MacAddr4,
            104 => Address::Station2MacAddr5,
            105 => Address::Mode,
            106 => Address::HighPriorityPacketBufferQ3,
            107 => Address::HighPriorityPacketBufferQ2,
            108 => Address::HighPriorityPacketBufferQ1,
            109 => Address::HighPriorityPacketBufferQ0,
            110 => Address::PmUsageFlowCtrlSelectMode1,
            111 => Address::PmUsageFlowCtrlSelectMode2,
            112 => Address::PmUsageFlowCtrlSelectMode3,
            113 => Address::PmUsageFlowCtrlSelectMode4,
            114 => Address::Port1TxqSplitForQ3,
            115 => Address::Port1TxqSplitForQ2,
            116 => Address::Port1TxqSplitForQ1,
            117 => Address::Port1TxqSplitForQ0,
            118 => Address::Port2TxqSplitForQ3,
            119 => Address::Port2TxqSplitForQ2,
            120 => Address::Port2TxqSplitForQ1,
            121 => Address::Port2TxqSplitForQ0,
            122 => Address::Port3TxqSplitForQ3,
            123 => Address::Port3TxqSplitForQ2,
            124 => Address::Port3TxqSplitForQ1,
            125 => Address::Port3TxqSplitForQ0,
            126 => Address::InterruptEnable,
            127 => Address::LinkChangeInterrupt,
            128 => Address::ForcePauseOff,
            129 => Address::FiberSignalThreshold,
            130 => Address::InternalLdoCtrl,
            131 => Address::InsertSrcPvid,
            132 => Address::PwrMgmtAndLedMode,
            133 => Address::SleepMode,
            _ => Address::FwdInvalidVidFrameAndHostMode,
        }
    }

    /// The slot of the register in a map.
    pub fn index(self) -> (i: usize)
        ensures
            i == index_of(self),
    {
        match self {
            Address::ChipId0 => 0,
            Address::ChipId1 => 1,
            Address::Gc0 => 2,
            Address::Gc1 => 3,
            Address::Gc2 => 4,
            Address::Gc3 => 5,
            Address::Gc4 => 6,
            Address::Gc5 => 7,
            Address::Gc9 => 8,
            Address::Gc10 => 9,
            Address::Gc11 => 10,
            Address::Gc12 => 11,
            Address::Gc13 => 12,
            Address::Port1Ctrl0 => 13,
            Address::Port1Ctrl1 => 14,
            Address::Port1Ctrl2 => 15,
            Address::Port1Ctrl3 => 16,
            Address::Port1Ctrl4 => 17,
            Address::Port1Ctrl5 => 18,
            Address::Port1Q0IngressRateLimit => 19,
            Address::Port1Q1IngressRateLimit => 20,
            Address::Port1Q2IngressRateLimit => 21,
            Address::Port1Q3IngressRateLimit => 22,
            Address::Port1PhySpecial => 23,
            Address::Port1LinkMdResult => 24,
            Address::Port1Ctrl12 => 25,
            Address::Port1Ctrl13 => 26,
            Address::Port1Status0 => 27,
            Address::Port1Status1 => 28,
            Address::Port2Ctrl0 => 29,
            Address::Port2Ctrl1 => 30,
            Address::Port2Ctrl2 => 31,
            Address::Port2Ctrl3 => 32,
            Address::Port2Ctrl4 => 33,
            Address::Port2Ctrl5 => 34,
            Address::Port2Q0IngressRateLimit => 35,
            Address::Port2Q1IngressRateLimit => 36,
            Address::Port2Q2IngressRateLimit => 37,
            Address::Port2Q3IngressRateLimit => 38,
            Address::Port2PhySpecial => 39,
            Address::Port2LinkMdResult => 40,
            Address::Port2Ctrl12 => 41,
            Address::Port2Ctrl13 => 42,
            Address::Port2Status0 => 43,
            Address::Port2Status1 => 44,
            Address::Port3Ctrl0 => 45,
            Address::Port3Ctrl1 => 46,
            Address::Port3Ctrl2 => 47,
            Address::Port3Ctrl3 => 48,
            Address::Port3Ctrl4 => 49,
            Address::Port3Ctrl5 => 50,
            Address::Port3Q0IngressRateLimit => 51,
            Address::Port3Q1IngressRateLimit => 52,
            Address::Port3Q2IngressRateLimit => 53,
            Address::Port3Q3IngressRateLimit => 54,
            Address::Port3Status1 => 55,
            Address::Reset => 56,
            Address::TosPriorityCtrl0 => 57,
            Address::TosPriorityCtrl1 => 58,
            Address::TosPriorityCtrl2 => 59,
            Address::TosPriorityCtrl3 => 60,
            Address::TosPriorityCtrl4 => 61,
            Address::TosPriorityCtrl5 => 62,
            Address::TosPriorityCtrl6 => 63,
            Address::TosPriorityCtrl7 => 64,
            Address::TosPriorityCtrl8 => 65,
            Address::TosPriorityCtrl9 => 66,
            Address::TosPriorityCtrl10 => 67,
            Address::TosPriorityCtrl11 => 68,
            Address::TosPriorityCtrl12 => 69,
            Address::TosPriorityCtrl13 => 70,
            Address::TosPriorityCtrl14 => 71,
            Address::TosPriorityCtrl15 => 72,
            Address::MacAddr0 => 73,
            Address::MacAddr1 => 74,
            Address::MacAddr2 => 75,
            Address::MacAddr3 => 76,
            Address::MacAddr4 => 77,
            Address::MacAddr5 => 78,
            Address::UserDef1 => 79,
            Address::UserDef2 => 80,
            Address::UserDef3 => 81,
            Address::IndirectAccessCtrl0 => 82,
            Address::IndirectAccessCtrl1 => 83,
            Address::IndirectData8 => 84,
            Address::IndirectData7 => 85,
            Address::IndirectData6 => 86,
            Address::IndirectData5 => 87,
            Address::IndirectData4 => 88,
            Address::IndirectData3 => 89,
            Address::IndirectData2 => 90,
            Address::IndirectData1 => 91,
            Address::IndirectData0 => 92,
            Address::Station1MacAddr0 => 93,
            Address::Station1MacAddr1 => 94,
            Address::Station1MacAddr2 => 95,
            Address::Station1MacAddr3 => 96,
            Address::Station1MacAddr4 => 97,
            Address::Station1MacAddr5 => 98,
            Address::Station2MacAddr0 => 99,
            Address::Station2MacAddr1 => 100,
            Address::Station2MacAddr2 => 101,
            Address::Station2MacAddr3 => 102,
            Address::Station2MacAddr4 => 103,
            Address::Station2MacAddr5 => 104,
            Address::Mode => 105,
            Address::HighPriorityPacketBufferQ3 => 106,
            Address::HighPriorityPacketBufferQ2 => 107,
            Address::HighPriorityPacketBufferQ1 => 108,
            Address::HighPriorityPacketBufferQ0 => 109,
            Address::PmUsageFlowCtrlSelectMode1 => 110,
            Address::PmUsageFlowCtrlSelectMode2 => 111,
            Address::PmUsageFlowCtrlSelectMode3 => 112,
            Address::PmUsageFlowCtrlSelectMode4 => 113,
            Address::Port1TxqSplitForQ3 => 114,
            Address::Port1TxqSplitForQ2 => 115,
            Address::Port1TxqSplitForQ1 => 116,
            Address::Port1TxqSplitForQ0 => 117,
            Address::Port2TxqSplitForQ3 => 118,
            Address::Port2TxqSplitForQ2 => 119,
            Address::Port2TxqSplitForQ1 => 120,
            Address::Port2TxqSplitForQ0 => 121,
            Address::Port3TxqSplitForQ3 => 122,
            Address::Port3TxqSplitForQ2 => 123,
            Address::Port3TxqSplitForQ1 => 124,
            Address::Port3TxqSplitForQ0 => 125,
            Address::InterruptEnable => 126,
            Address::LinkChangeInterrupt => 127,
            Address::ForcePauseOff => 128,
            Address::FiberSignalThreshold => 129,
            Address::InternalLdoCtrl => 130,
            Address::InsertSrcPvid => 131,
            Address::PwrMgmtAndLedMode => 132,
            Address::SleepMode => 133,
            Address::FwdInvalidVidFrameAndHostMode => 134,
        }
    }

    /// The numeric code of the address.
    pub fn code(self) -> (c: u8)
        ensures
            c == code_of(self),
    {
        match self {
            Address::ChipId0 => 0x00,
            Address::ChipId1 => 0x01,
            Address::Gc0 => 0x02,
            Address::Gc1 => 0x03,
            Address::Gc2 => 0x04,
            Address::Gc3 => 0x05,
            Address::Gc4 => 0x06,
            Address::Gc5 => 0x07,
            Address::Gc9 => 0x0b,
            Address::Gc10 => 0x0c,
            Address::Gc11 => 0x0d,
            Address::Gc12 => 0x0e,
            Address::Gc13 => 0x0f,
            Address::Port1Ctrl0 => 0x10,
            Address::Port1Ctrl1 => 0x11,
            Address::Port1Ctrl2 => 0x12,
            Address::Port1Ctrl3 => 0x13,
            Address::Port1Ctrl4 => 0x14,
            Address::Port1Ctrl5 => 0x15,
            Address::Port1Q0IngressRateLimit => 0x16,
            Address::Port1Q1IngressRateLimit => 0x17,
            Address::Port1Q2IngressRateLimit => 0x18,
            Address::Port1Q3IngressRateLimit => 0x19,
            Address::Port1PhySpecial => 0x1a,
            Address::Port1LinkMdResult => 0x1b,
            Address::Port1Ctrl12 => 0x1c,
            Address::Port1Ctrl13 => 0x1d,
            Address::Port1Status0 => 0x1e,
            Address::Port1Status1 => 0x1f,
            Address::Port2Ctrl0 => 0x20,
            Address::Port2Ctrl1 => 0x21,
            Address::Port2Ctrl2 => 0x22,
            Address::Port2Ctrl3 => 0x23,
            Address::Port2Ctrl4 => 0x24,
            Address::Port2Ctrl5 => 0x25,
            Address::Port2Q0IngressRateLimit => 0x26,
            Address::Port2Q1IngressRateLimit => 0x27,
            Address::Port2Q2IngressRateLimit => 0x28,
            Address::Port2Q3IngressRateLimit => 0x29,
            Address::Port2PhySpecial => 0x2a,
            Address::Port2LinkMdResult => 0x2b,
            Address::Port2Ctrl12 => 0x2c,
            Address::Port2Ctrl13 => 0x2d,
            Address::Port2Status0 => 0x2e,
            Address::Port2Status1 => 0x2f,
            Address::Port3Ctrl0 => 0x30,
            Address::Port3Ctrl1 => 0x31,
            Address::Port3Ctrl2 => 0x32,
            Address::Port3Ctrl3 => 0x33,
            Address::Port3Ctrl4 => 0x34,
            Address::Port3Ctrl5 => 0x35,
            Address::Port3Q0IngressRateLimit => 0x36,
            Address::Port3Q1IngressRateLimit => 0x37,
            Address::Port3Q2IngressRateLimit => 0x38,
            Address::Port3Q3IngressRateLimit => 0x39,
            Address::Port3Status1 => 0x3f,
            Address::Reset => 0x43,
            Address::TosPriorityCtrl0 => 0x60,
            Address::TosPriorityCtrl1 => 0x61,
            Address::TosPriorityCtrl2 => 0x62,
            Address::TosPriorityCtrl3 => 0x63,
            Address::TosPriorityCtrl4 => 0x64,
            Address::TosPriorityCtrl5 => 0x65,
            Address::TosPriorityCtrl6 => 0x66,
            Address::TosPriorityCtrl7 => 0x67,
            Address::TosPriorityCtrl8 => 0x68,
            Address::TosPriorityCtrl9 => 0x69,
            Address::TosPriorityCtrl10 => 0x6a,
            Address::TosPriorityCtrl11 => 0x6b,
            Address::TosPriorityCtrl12 => 0x6c,
            Address::TosPriorityCtrl13 => 0x6d,
            Address::TosPriorityCtrl14 => 0x6e,
            Address::TosPriorityCtrl15 => 0x6f,
            Address::MacAddr0 => 0x70,
            Address::MacAddr1 => 0x71,
            Address::MacAddr2 => 0x72,
            Address::MacAddr3 => 0x73,
            Address::MacAddr4 => 0x74,
            Address::MacAddr5 => 0x75,
            Address::UserDef1 => 0x76,
            Address::UserDef2 => 0x77,
            Address::UserDef3 => 0x78,
            Address::IndirectAccessCtrl0 => 0x79,
            Address::IndirectAccessCtrl1 => 0x7a,
            Address::IndirectData8 => 0x7b,
            Address::IndirectData7 => 0x7c,
            Address::IndirectData6 => 0x7d,
            Address::IndirectData5 => 0x7e,
            Address::IndirectData4 => 0x7f,
            Address::IndirectData3 => 0x80,
            Address::IndirectData2 => 0x81,
            Address::IndirectData1 => 0x82,
            Address::IndirectData0 => 0x83,
            Address::Station1MacAddr0 => 0x8e,
            Address::Station1MacAddr1 => 0x8f,
            Address::Station1MacAddr2 => 0x90,
            Address::Station1MacAddr3 => 0x91,
            Address::Station1MacAddr4 => 0x92,
            Address::Station1MacAddr5 => 0x93,
            Address::Station2MacAddr0 => 0x94,
            Address::Station2MacAddr1 => 0x95,
            Address::Station2MacAddr2 => 0x96,
            Address::Station2MacAddr3 => 0x97,
            Address::Station2MacAddr4 => 0x98,
            Address::Station2MacAddr5 => 0x99,
            Address::Mode => 0xa6,
            Address::HighPriorityPacketBufferQ3 => 0xa7,
            Address::HighPriorityPacketBufferQ2 => 0xa8,
            Address::HighPriorityPacketBufferQ1 => 0xa9,
            Address::HighPriorityPacketBufferQ0 => 0xaa,
            Address::PmUsageFlowCtrlSelectMode1 => 0xab,
            Address::PmUsageFlowCtrlSelectMode2 => 0xac,
            Address::PmUsageFlowCtrlSelectMode3 => 0xad,
            Address::PmUsageFlowCtrlSelectMode4 => 0xae,
            Address::Port1TxqSplitForQ3 => 0xaf,
            Address::Port1TxqSplitForQ2 => 0xb0,
            Address::Port1TxqSplitForQ1 => 0xb1,
            Address::Port1TxqSplitForQ0 => 0xb2,
            Address::Port2TxqSplitForQ3 => 0xb3,
            Address::Port2TxqSplitForQ2 => 0xb4,
            Address::Port2TxqSplitForQ1 => 0xb5,
            Address::Port2TxqSplitForQ0 => 0xb6,
            Address::Port3TxqSplitForQ3 => 0xb7,
            Address::Port3TxqSplitForQ2 => 0xb8,
            Address::Port3TxqSplitForQ1 => 0xb9,
            Address::Port3TxqSplitForQ0 => 0xba,
            Address::InterruptEnable => 0xbb,
            Address::LinkChangeInterrupt => 0xbc,
            Address::ForcePauseOff => 0xbd,
            Address::FiberSignalThreshold => 0xc0,
            Address::InternalLdoCtrl => 0xc1,
            Address::InsertSrcPvid => 0xc2,
            Address::PwrMgmtAndLedMode => 0xc3,
            Address::SleepMode => 0xc4,
            Address::FwdInvalidVidFrameAndHostMode => 0xc6,
        }
    }

    /// The address with the given numeric code, if one is documented.
    pub fn from_code(c: u8) -> (a: Option<Address>)
        ensures
            a == address_of(c),
    {
        match c {
            0x00 => Some(Address::ChipId0),
            0x01 => Some(Address::ChipId1),
            0x02 => Some(Address::Gc0),
            0x03 => Some(Address::Gc1),
            0x04 => Some(Address::Gc2),
            0x05 => Some(Address::Gc3),
            0x06 => Some(Address::Gc4),
            0x07 => Some(Address::Gc5),
            0x0b => Some(Address::Gc9),
            0x0c => Some(Address::Gc10),
            0x0d => Some(Address::Gc11),
            0x0e => Some(Address::Gc12),
            0x0f => Some(Address::Gc13),
            0x10 => Some(Address::Port1Ctrl0),
            0x11 => Some(Address::Port1Ctrl1),
            0x12 => Some(Address::Port1Ctrl2),
            0x13 => Some(Address::Port1Ctrl3),
            0x14 => Some(Address::Port1Ctrl4),
            0x15 => Some(Address::Port1Ctrl5),
            0x16 => Some(Address::Port1Q0IngressRateLimit),
            0x17 => Some(Address::Port1Q1IngressRateLimit),
            0x18 => Some(Address::Port1Q2IngressRateLimit),
            0x19 => Some(Address::Port1Q3IngressRateLimit),
            0x1a => Some(Address::Port1PhySpecial),
            0x1b => Some(Address::Port1LinkMdResult),
            0x1c => Some(Address::Port1Ctrl12),
            0x1d => Some(Address::Port1Ctrl13),
            0x1e => Some(Address::Port1Status0),
            0x1f => Some(Address::Port1Status1),
            0x20 => Some(Address::Port2Ctrl0),
            0x21 => Some(Address::Port2Ctrl1),
            0x22 => Some(Address::Port2Ctrl2),
            0x23 => Some(Address::Port2Ctrl3),
            0x24 => Some(Address::Port2Ctrl4),
            0x25 => Some(Address::Port2Ctrl5),
            0x26 => Some(Address::Port2Q0IngressRateLimit),
            0x27 => Some(Address::Port2Q1IngressRateLimit),
            0x28 => Some(Address::Port2Q2IngressRateLimit),
            0x29 => Some(Address::Port2Q3IngressRateLimit),
            0x2a => Some(Address::Port2PhySpecial),
            0x2b => Some(Address::Port2LinkMdResult),
            0x2c => Some(Address::Port2Ctrl12),
            0x2d => Some(Address::Port2Ctrl13),
            0x2e => Some(Address::Port2Status0),
            0x2f => Some(Address::Port2Status1),
            0x30 => Some(Address::Port3Ctrl0),
            0x31 => Some(Address::Port3Ctrl1),
            0x32 => Some(Address::Port3Ctrl2),
            0x33 => Some(Address::Port3Ctrl3),
            0x34 => Some(Address::Port3Ctrl4),
            0x35 => Some(Address::Port3Ctrl5),
            0x36 => Some(Address::Port3Q0IngressRateLimit),
            0x37 => Some(Address::Port3Q1IngressRateLimit),
            0x38 => Some(Address::Port3Q2IngressRateLimit),
            0x39 => Some(Address::Port3Q3IngressRateLimit),
            0x3f => Some(Address::Port3Status1),
            0x43 => Some(Address::Reset),
            0x60 => Some(Address::TosPriorityCtrl0),
            0x61 => Some(Address::TosPriorityCtrl1),
            0x62 => Some(Address::TosPriorityCtrl2),
            0x63 => Some(Address::TosPriorityCtrl3),
            0x64 => Some(Address::TosPriorityCtrl4),
            0x65 => Some(Address::TosPriorityCtrl5),
            0x66 => Some(Address::TosPriorityCtrl6),
            0x67 => Some(Address::TosPriorityCtrl7),
            0x68 => Some(Address::TosPriorityCtrl8),
            0x69 => Some(Address::TosPriorityCtrl9),
            0x6a => Some(Address::TosPriorityCtrl10),
            0x6b => Some(Address::TosPriorityCtrl11),
            0x6c => Some(Address::TosPriorityCtrl12),
            0x6d => Some(Address::TosPriorityCtrl13),
            0x6e => Some(Address::TosPriorityCtrl14),
            0x6f => Some(Address::TosPriorityCtrl15),
            0x70 => Some(Address::MacAddr0),
            0x71 => Some(Address::MacAddr1),
            0x72 => Some(Address::MacAddr2),
            0x73 => Some(Address::MacAddr3),
            0x74 => Some(Address::MacAddr4),
            0x75 => Some(Address::MacAddr5),
            0x76 => Some(Address::UserDef1),
            0x77 => Some(Address::UserDef2),
            0x78 => Some(Address::UserDef3),
            0x79 => Some(Address::IndirectAccessCtrl0),
            0x7a => Some(Address::IndirectAccessCtrl1),
            0x7b => Some(Address::IndirectData8),
            0x7c => Some(Address::IndirectData7),
            0x7d => Some(Address::IndirectData6),
            0x7e => Some(Address::IndirectData5),
            0x7f => Some(Address::IndirectData4),
            0x80 => Some(Address::IndirectData3),
            0x81 => Some(Address::IndirectData2),
            0x82 => Some(Address::IndirectData1),
            0x83 => Some(Address::IndirectData0),
            0x8e => Some(Address::Station1MacAddr0),
            0x8f => Some(Address::Station1MacAddr1),
            0x90 => Some(Address::Station1MacAddr2),
            0x91 => Some(Address::Station1MacAddr3),
            0x92 => Some(Address::Station1MacAddr4),
            0x93 => Some(Address::Station1MacAddr5),
            0x94 => Some(Address::Station2MacAddr0),
            0x95 => Some(Address::Station2MacAddr1),
            0x96 => Some(Address::Station2MacAddr2),
            0x97 => Some(Address::Station2MacAddr3),
            0x98 => Some(Address::Station2MacAddr4),
            0x99 => Some(Address::Station2MacAddr5),
            0xa6 => Some(Address::Mode),
            0xa7 => Some(Address::HighPriorityPacketBufferQ3),
            0xa8 => Some(Address::HighPriorityPacketBufferQ2),
            0xa9 => Some(Address::HighPriorityPacketBufferQ1),
            0xaa => Some(Address::HighPriorityPacketBufferQ0),
            0xab => Some(Address::PmUsageFlowCtrlSelectMode1),
            0xac => Some(Address::PmUsageFlowCtrlSelectMode2),
            0xad => Some(Address::PmUsageFlowCtrlSelectMode3),
            0xae => Some(Address::PmUsageFlowCtrlSelectMode4),
            0xaf => Some(Address::Port1TxqSplitForQ3),
            0xb0 => Some(Address::Port1TxqSplitForQ2),
            0xb1 => Some(Address::Port1TxqSplitForQ1),
            0xb2 => Some(Address::Port1TxqSplitForQ0),
            0xb3 => Some(Address::Port2TxqSplitForQ3),
            0xb4 => Some(Address::Port2TxqSplitForQ2),
            0xb5 => Some(Address::Port2TxqSplitForQ1),
            0xb6 => Some(Address::Port2TxqSplitForQ0),
            0xb7 => Some(Address::Port3TxqSplitForQ3),
            0xb8 => Some(Address::Port3TxqSplitForQ2),
            0xb9 => Some(Address::Port3TxqSplitForQ1),
            0xba => Some(Address::Port3TxqSplitForQ0),
            0xbb => Some(Address::InterruptEnable),
            0xbc => Some(Address::LinkChangeInterrupt),
            0xbd => Some(Address::ForcePauseOff),
            0xc0 => Some(Address::FiberSignalThreshold),
            0xc1 => Some(Address::InternalLdoCtrl),
            0xc2 => Some(Address::InsertSrcPvid),
            0xc3 => Some(Address::PwrMgmtAndLedMode),
            0xc4 => Some(Address::SleepMode),
            0xc6 => Some(Address::FwdInvalidVidFrameAndHostMode),
            _ => None,
        }
    }

    /// The raw word of the register with every field at its default.
    pub fn default_word(self) -> (v: u8)
        ensures
            v == default_bits(self),
    {
        match self {
            Address::ChipId0 => 0x88,
            Address::ChipId1 => 0x31,
            Address::Gc0 => 0x00,
            Address::Gc1 => 0x34,
            Address::Gc2 => 0xf0,
            Address::Gc3 => 0x00,
            Address::Gc4 => 0x10,
            Address::Gc5 => 0x63,
            Address::Gc9 => 0x88,
            Address::Gc10 => 0x50,
            Address::Gc11 => 0xfa,
            Address::Gc12 => 0x47,
            Address::Gc13 => 0x08,
            Address::Port1Ctrl0 => 0x00,
            Address::Port1Ctrl1 => 0x07,
            Address::Port1Ctrl2 => 0x06,
            Address::Port1Ctrl3 => 0x00,
            Address::Port1Ctrl4 => 0x01,
            Address::Port1Ctrl5 => 0x00,
            Address::Port1Q0IngressRateLimit => 0x00,
            Address::Port1Q1IngressRateLimit => 0x00,
            Address::Port1Q2IngressRateLimit => 0x00,
            Address::Port1Q3IngressRateLimit => 0x00,
            Address::Port1PhySpecial => 0x00,
            Address::Port1LinkMdResult => 0x00,
            Address::Port1Ctrl12 => 0x1f,
            Address::Port1Ctrl13 => 0x00,
            Address::Port1Status0 => 0x00,
            Address::Port1Status1 => 0x80,
            Address::Port2Ctrl0 => 0x00,
            Address::Port2Ctrl1 => 0x07,
            Address::Port2Ctrl2 => 0x06,
            Address::Port2Ctrl3 => 0x00,
            Address::Port2Ctrl4 => 0x01,
            Address::Port2Ctrl5 => 0x00,
            Address::Port2Q0IngressRateLimit => 0x00,
            Address::Port2Q1IngressRateLimit => 0x00,
            Address::Port2Q2IngressRateLimit => 0x00,
            Address::Port2Q3IngressRateLimit => 0x00,
            Address::Port2PhySpecial => 0x00,
            Address::Port2LinkMdResult => 0x00,
            Address::Port2Ctrl12 => 0x1f,
            Address::Port2Ctrl13 => 0x00,
            Address::Port2Status0 => 0x00,
            Address::Port2Status1 => 0x80,
            Address::Port3Ctrl0 => 0x00,
            Address::Port3Ctrl1 => 0x07,
            Address::Port3Ctrl2 => 0x06,
            Address::Port3Ctrl3 => 0x00,
            Address::Port3Ctrl4 => 0x01,
            Address::Port3Ctrl5 => 0x00,
            Address::Port3Q0IngressRateLimit => 0x00,
            Address::Port3Q1IngressRateLimit => 0x00,
            Address::Port3Q2IngressRateLimit => 0x00,
            Address::Port3Q3IngressRateLimit => 0x00,
            Address::Port3Status1 => 0x00,
            Address::Reset => 0x00,
            Address::TosPriorityCtrl0 => 0x00,
            Address::TosPriorityCtrl1 => 0x00,
            Address::TosPriorityCtrl2 => 0x00,
            Address::TosPriorityCtrl3 => 0x00,
            Address::TosPriorityCtrl4 => 0x00,
            Address::TosPriorityCtrl5 => 0x00,
            Address::TosPriorityCtrl6 => 0x00,
            Address::TosPriorityCtrl7 => 0x00,
            Address::TosPriorityCtrl8 => 0x00,
            Address::TosPriorityCtrl9 => 0x00,
            Address::TosPriorityCtrl10 => 0x00,
            Address::TosPriorityCtrl11 => 0x00,
            Address::TosPriorityCtrl12 => 0x00,
            Address::TosPriorityCtrl13 => 0x00,
            Address::TosPriorityCtrl14 => 0x00,
            Address::TosPriorityCtrl15 => 0x00,
            Address::MacAddr0 => 0x00,
            Address::MacAddr1 => 0x10,
            Address::MacAddr2 => 0xa1,
            Address::MacAddr3 => 0xff,
            Address::MacAddr4 => 0xff,
            Address::MacAddr5 => 0xff,
            Address::UserDef1 => 0x00,
            Address::UserDef2 => 0x00,
            Address::UserDef3 => 0x00,
            Address::IndirectAccessCtrl0 => 0x00,
            Address::IndirectAccessCtrl1 => 0x00,
            Address::IndirectData8 => 0x00,
            Address::IndirectData7 => 0x00,
            Address::IndirectData6 => 0x00,
            Address::IndirectData5 => 0x00,
            Address::IndirectData4 => 0x00,
            Address::IndirectData3 => 0x00,
            Address::IndirectData2 => 0x00,
            Address::IndirectData1 => 0x00,
            Address::IndirectData0 => 0x00,
            Address::Station1MacAddr0 => 0x00,
            Address::Station1MacAddr1 => 0x00,
            Address::Station1MacAddr2 => 0x00,
            Address::Station1MacAddr3 => 0x00,
            Address::Station1MacAddr4 => 0x00,
            Address::Station1MacAddr5 => 0x00,
            Address::Station2MacAddr0 => 0x00,
            Address::Station2MacAddr1 => 0x00,
            Address::Station2MacAddr2 => 0x00,
            Address::Station2MacAddr3 => 0x00,
            Address::Station2MacAddr4 => 0x00,
            Address::Station2MacAddr5 => 0x00,
            Address::Mode => 0x00,
            Address::HighPriorityPacketBufferQ3 => 0x45,
            Address::HighPriorityPacketBufferQ2 => 0x35,
            Address::HighPriorityPacketBufferQ1 => 0x25,
            Address::HighPriorityPacketBufferQ0 => 0x15,
            Address::PmUsageFlowCtrlSelectMode1 => 0x00,
            Address::PmUsageFlowCtrlSelectMode2 => 0x00,
            Address::PmUsageFlowCtrlSelectMode3 => 0x00,
            Address::PmUsageFlowCtrlSelectMode4 => 0x00,
            Address::Port1TxqSplitForQ3 => 0x80,
            Address::Port1TxqSplitForQ2 => 0x80,
            Address::Port1TxqSplitForQ1 => 0x80,
            Address::Port1TxqSplitForQ0 => 0x80,
            Address::Port2TxqSplitForQ3 => 0x80,
            Address::Port2TxqSplitForQ2 => 0x80,
            Address::Port2TxqSplitForQ1 => 0x80,
            Address::Port2TxqSplitForQ0 => 0x80,
            Address::Port3TxqSplitForQ3 => 0x80,
            Address::Port3TxqSplitForQ2 => 0x80,
            Address::Port3TxqSplitForQ1 => 0x80,
            Address::Port3TxqSplitForQ0 => 0x80,
            Address::InterruptEnable => 0x00,
            Address::LinkChangeInterrupt => 0x00,
            Address::ForcePauseOff => 0x00,
            Address::FiberSignalThreshold => 0x00,
            Address::InternalLdoCtrl => 0x00,
            Address::InsertSrcPvid => 0x00,
            Address::PwrMgmtAndLedMode => 0x00,
            Address::SleepMode => 0x50,
            Address::FwdInvalidVidFrameAndHostMode => 0x00,
        }
    }

    /// The bits of the register that belong to a writable field with a default.
    pub fn reset_word(self) -> (v: u8)
        ensures
            v == reset_mask(self),
    {
        match self {
            Address::ChipId0 => 0x00,
            Address::ChipId1 => 0x01,
            Address::Gc0 => 0xb8,
            Address::Gc1 => 0xff,
            Address::Gc2 => 0xfe,
            Address::Gc3 => 0xc9,
            Address::Gc4 => 0x7f,
            Address::Gc5 => 0xff,
            Address::Gc9 => 0xc0,
            Address::Gc10 => 0xff,
            Address::Gc11 => 0xff,
            Address::Gc12 => 0xc7,
            Address::Gc13 => 0xf8,
            Address::Port1Ctrl0 => 0xff,
            Address::Port1Ctrl1 => 0xff,
            Address::Port1Ctrl2 => 0xef,
            Address::Port1Ctrl3 => 0xff,
            Address::Port1Ctrl4 => 0xff,
            Address::Port1Ctrl5 => 0xff,
            Address::Port1Q0IngressRateLimit => 0x7f,
            Address::Port1Q1IngressRateLimit => 0x7f,
            Address::Port1Q2IngressRateLimit => 0x7f,
            Address::Port1Q3IngressRateLimit => 0x7f,
            Address::Port1PhySpecial => 0x1a,
            Address::Port1LinkMdResult => 0x00,
            Address::Port1Ctrl12 => 0x1f,
            Address::Port1Ctrl13 => 0xff,
            Address::Port1Status0 => 0x00,
            Address::Port1Status1 => 0x00,
            Address::Port2Ctrl0 => 0xff,
            Address::Port2Ctrl1 => 0xff,
            Address::Port2Ctrl2 => 0xef,
            Address::Port2Ctrl3 => 0xff,
            Address::Port2Ctrl4 => 0xff,
            Address::Port2Ctrl5 => 0xff,
            Address::Port2Q0IngressRateLimit => 0x7f,
            Address::Port2Q1IngressRateLimit => 0x7f,
            Address::Port2Q2IngressRateLimit => 0x7f,
            Address::Port2Q3IngressRateLimit => 0x7f,
            Address::Port2PhySpecial => 0x1a,
            Address::Port2LinkMdResult => 0x00,
            Address::Port2Ctrl12 => 0x1f,
            Address::Port2Ctrl13 => 0xff,
            Address::Port2Status0 => 0x00,
            Address::Port2Status1 => 0x00,
            Address::Port3Ctrl0 => 0xff,
            Address::Port3Ctrl1 => 0xff,
            Address::Port3Ctrl2 => 0xef,
            Address::Port3Ctrl3 => 0xff,
            Address::Port3Ctrl4 => 0xff,
            Address::Port3Ctrl5 => 0xff,
            Address::Port3Q0IngressRateLimit => 0xff,
            Address::Port3Q1IngressRateLimit => 0x7f,
            Address::Port3Q2IngressRateLimit => 0x7f,
            Address::Port3Q3IngressRateLimit => 0x7f,
            Address::Port3Status1 => 0x00,
            Address::Reset => 0x11,
            Address::TosPriorityCtrl0 => 0xff,
            Address::TosPriorityCtrl1 => 0xff,
            Address::TosPriorityCtrl2 => 0xff,
            Address::TosPriorityCtrl3 => 0xff,
            Address::TosPriorityCtrl4 => 0xff,
            Address::TosPriorityCtrl5 => 0xff,
            Address::TosPriorityCtrl6 => 0xff,
            Address::TosPriorityCtrl7 => 0xff,
            Address::TosPriorityCtrl8 => 0xff,
            Address::TosPriorityCtrl9 => 0xff,
            Address::TosPriorityCtrl10 => 0xff,
            Address::TosPriorityCtrl11 => 0xff,
            Address::TosPriorityCtrl12 => 0xff,
            Address::TosPriorityCtrl13 => 0xff,
            Address::TosPriorityCtrl14 => 0xff,
            Address::TosPriorityCtrl15 => 0xff,
            Address::MacAddr0 => 0xff,
            Address::MacAddr1 => 0xff,
            Address::MacAddr2 => 0xff,
            Address::MacAddr3 => 0xff,
            Address::MacAddr4 => 0xff,
            Address::MacAddr5 => 0xff,
            Address::UserDef1 => 0xff,
            Address::UserDef2 => 0xff,
            Address::UserDef3 => 0xff,
            Address::IndirectAccessCtrl0 => 0x1f,
            Address::IndirectAccessCtrl1 => 0xff,
            Address::IndirectData8 => 0x07,
            Address::IndirectData7 => 0xff,
            Address::IndirectData6 => 0xff,
            Address::IndirectData5 => 0xff,
            Address::IndirectData4 => 0xff,
            Address::IndirectData3 => 0xff,
            Address::IndirectData2 => 0xff,
            Address::IndirectData1 => 0xff,
            Address::IndirectData0 => 0xff,
            Address::Station1MacAddr0 => 0x00,
            Address::Station1MacAddr1 => 0x00,
            Address::Station1MacAddr2 => 0x00,
            Address::Station1MacAddr3 => 0x00,
            Address::Station1MacAddr4 => 0x00,
            Address::Station1MacAddr5 => 0x00,
            Address::Station2MacAddr0 => 0x00,
            Address::Station2MacAddr1 => 0x00,
            Address::Station2MacAddr2 => 0x00,
            Address::Station2MacAddr3 => 0x00,
            Address::Station2MacAddr4 => 0x00,
            Address::Station2MacAddr5 => 0x00,
            Address::Mode => 0x00,
            Address::HighPriorityPacketBufferQ3 => 0x00,
            Address::HighPriorityPacketBufferQ2 => 0x00,
            Address::HighPriorityPacketBufferQ1 => 0x00,
            Address::HighPriorityPacketBufferQ0 => 0x00,
            Address::PmUsageFlowCtrlSelectMode1 => 0x00,
            Address::PmUsageFlowCtrlSelectMode2 => 0x00,
            Address::PmUsageFlowCtrlSelectMode3 => 0x00,
            Address::PmUsageFlowCtrlSelectMode4 => 0x00,
            Address::Port1TxqSplitForQ3 => 0x80,
            Address::Port1TxqSplitForQ2 => 0x80,
            Address::Port1TxqSplitForQ1 => 0x80,
            Address::Port1TxqSplitForQ0 => 0x80,
            Address::Port2TxqSplitForQ3 => 0x80,
            Address::Port2TxqSplitForQ2 => 0x80,
            Address::Port2TxqSplitForQ1 => 0x80,
            Address::Port2TxqSplitForQ0 => 0x80,
            Address::Port3TxqSplitForQ3 => 0x80,
            Address::Port3TxqSplitForQ2 => 0x80,
            Address::Port3TxqSplitForQ1 => 0x80,
            Address::Port3TxqSplitForQ0 => 0x80,
            Address::InterruptEnable => 0xff,
            Address::LinkChangeInterrupt => 0x87,
            Address::ForcePauseOff => 0xff,
            Address::FiberSignalThreshold => 0xc0,
            Address::InternalLdoCtrl => 0x40,
            Address::InsertSrcPvid => 0x3f,
            Address::PwrMgmtAndLedMode => 0xff,
            Address::SleepMode => 0xff,
            Address::FwdInvalidVidFrameAndHostMode => 0x7c,
        }
    }

    /// The state of the register at this address holding the raw word `v`.
    pub fn state(self, v: u8) -> (s: State)
        ensures
            s == state_of(self, v),
    {
        match self {
            Address::ChipId0 => State::ChipId0(ChipId0 { bits: v }),
            Address::ChipId1 => State::ChipId1(ChipId1 { bits: v }),
            Address::Gc0 => State::Gc0(Gc0 { bits: v }),
            Address::Gc1 => State::Gc1(Gc1 { bits: v }),
            Address::Gc2 => State::Gc2(Gc2 { bits: v }),
            Address::Gc3 => State::Gc3(Gc3 { bits: v }),
            Address::Gc4 => State::Gc4(Gc4 { bits: v }),
            Address::Gc5 => State::Gc5(Gc5 { bits: v }),
            Address::Gc9 => State::Gc9(Gc9 { bits: v }),
            Address::Gc10 => State::Gc10(Gc10 { bits: v }),
            Address::Gc11 => State::Gc11(Gc11 { bits: v }),
            Address::Gc12 => State::Gc12(Gc12 { bits: v }),
            Address::Gc13 => State::Gc13(Gc13 { bits: v }),
            Address::Port1Ctrl0 => State::Port1Ctrl0(Port1Ctrl0 { bits: v }),
            Address::Port1Ctrl1 => State::Port1Ctrl1(Port1Ctrl1 { bits: v }),
            Address::Port1Ctrl2 => State::Port1Ctrl2(Port1Ctrl2 { bits: v }),
            Address::Port1Ctrl3 => State::Port1Ctrl3(Port1Ctrl3 { bits: v }),
            Address::Port1Ctrl4 => State::Port1Ctrl4(Port1Ctrl4 { bits: v }),
            Address::Port1Ctrl5 => State::Port1Ctrl5(Port1Ctrl5 { bits: v }),
            Address::Port1Q0IngressRateLimit => State::Port1Q0IngressRateLimit(Port1Q0IngressRateLimit { bits: v }),
            Address::Port1Q1IngressRateLimit => State::Port1Q1IngressRateLimit(Port1Q1IngressRateLimit { bits: v }),
            Address::Port1Q2IngressRateLimit => State::Port1Q2IngressRateLimit(Port1Q2IngressRateLimit { bits: v }),
            Address::Port1Q3IngressRateLimit => State::Port1Q3IngressRateLimit(Port1Q3IngressRateLimit { bits: v }),
            Address::Port1PhySpecial => State::Port1PhySpecial(Port1PhySpecial { bits: v }),
            Address::Port1LinkMdResult => State::Port1LinkMdResult(Port1LinkMdResult { bits: v }),
            Address::Port1Ctrl12 => State::Port1Ctrl12(Port1Ctrl12 { bits: v }),
            Address::Port1Ctrl13 => State::Port1Ctrl13(Port1Ctrl13 { bits: v }),
            Address::Port1Status0 => State::Port1Status0(Port1Status0 { bits: v }),
            Address::Port1Status1 => State::Port1Status1(Port1Status1 { bits: v }),
            Address::Port2Ctrl0 => State::Port2Ctrl0(Port2Ctrl0 { bits: v }),
            Address::Port2Ctrl1 => State::Port2Ctrl1(Port2Ctrl1 { bits: v }),
            Address::Port2Ctrl2 => State::Port2Ctrl2(Port2Ctrl2 { bits: v }),
            Address::Port2Ctrl3 => State::Port2Ctrl3(Port2Ctrl3 { bits: v }),
            Address::Port2Ctrl4 => State::Port2Ctrl4(Port2Ctrl4 { bits: v }),
            Address::Port2Ctrl5 => State::Port2Ctrl5(Port2Ctrl5 { bits: v }),
            Address::Port2Q0IngressRateLimit => State::Port2Q0IngressRateLimit(Port2Q0IngressRateLimit { bits: v }),
            Address::Port2Q1IngressRateLimit => State::Port2Q1IngressRateLimit(Port2Q1IngressRateLimit { bits: v }),
            Address::Port2Q2IngressRateLimit => State::Port2Q2IngressRateLimit(Port2Q2IngressRateLimit { bits: v }),
            Address::Port2Q3IngressRateLimit => State::Port2Q3IngressRateLimit(Port2Q3IngressRateLimit { bits: v }),
            Address::Port2PhySpecial => State::Port2PhySpecial(Port2PhySpecial { bits: v }),
            Address::Port2LinkMdResult => State::Port2LinkMdResult(Port2LinkMdResult { bits: v }),
            Address::Port2Ctrl12 => State::Port2Ctrl12(Port2Ctrl12 { bits: v }),
            Address::Port2Ctrl13 => State::Port2Ctrl13(Port2Ctrl13 { bits: v }),
            Address::Port2Status0 => State::Port2Status0(Port2Status0 { bits: v }),
            Address::Port2Status1 => State::Port2Status1(Port2Status1 { bits: v }),
            Address::Port3Ctrl0 => State::Port3Ctrl0(Port3Ctrl0 { bits: v }),
            Address::Port3Ctrl1 => State::Port3Ctrl1(Port3Ctrl1 { bits: v }),
            Address::Port3Ctrl2 => State::Port3Ctrl2(Port3Ctrl2 { bits: v }),
            Address::Port3Ctrl3 => State::Port3Ctrl3(Port3Ctrl3 { bits: v }),
            Address::Port3Ctrl4 => State::Port3Ctrl4(Port3Ctrl4 { bits: v }),
            Address::Port3Ctrl5 => State::Port3Ctrl5(Port3Ctrl5 { bits: v }),
            Address::Port3Q0IngressRateLimit => State::Port3Q0IngressRateLimit(Port3Q0IngressRateLimit { bits: v }),
            Address::Port3Q1IngressRateLimit => State::Port3Q1IngressRateLimit(Port3Q1IngressRateLimit { bits: v }),
            Address::Port3Q2IngressRateLimit => State::Port3Q2IngressRateLimit(Port3Q2IngressRateLimit { bits: v }),
            Address::Port3Q3IngressRateLimit => State::Port3Q3IngressRateLimit(Port3Q3IngressRateLimit { bits: v }),
            Address::Port3Status1 => State::Port3Status1(Port3Status1 { bits: v }),
            Address::Reset => State::Reset(Reset { bits: v }),
            Address::TosPriorityCtrl0 => State::TosPriorityCtrl0(TosPriorityCtrl0 { bits: v }),
            Address::TosPriorityCtrl1 => State::TosPriorityCtrl1(TosPriorityCtrl1 { bits: v }),
            Address::TosPriorityCtrl2 => State::TosPriorityCtrl2(TosPriorityCtrl2 { bits: v }),
            Address::TosPriorityCtrl3 => State::TosPriorityCtrl3(TosPriorityCtrl3 { bits: v }),
            Address::TosPriorityCtrl4 => State::TosPriorityCtrl4(TosPriorityCtrl4 { bits: v }),
            Address::TosPriorityCtrl5 => State::TosPriorityCtrl5(TosPriorityCtrl5 { bits: v }),
            Address::TosPriorityCtrl6 => State::TosPriorityCtrl6(TosPriorityCtrl6 { bits: v }),
            Address::TosPriorityCtrl7 => State::TosPriorityCtrl7(TosPriorityCtrl7 { bits: v }),
            Address::TosPriorityCtrl8 => State::TosPriorityCtrl8(TosPriorityCtrl8 { bits: v }),
            Address::TosPriorityCtrl9 => State::TosPriorityCtrl9(TosPriorityCtrl9 { bits: v }),
            Address::TosPriorityCtrl10 => State::TosPriorityCtrl10(TosPriorityCtrl10 { bits: v }),
            Address::TosPriorityCtrl11 => State::TosPriorityCtrl11(TosPriorityCtrl11 { bits: v }),
            Address::TosPriorityCtrl12 => State::TosPriorityCtrl12(TosPriorityCtrl12 { bits: v }),
            Address::TosPriorityCtrl13 => State::TosPriorityCtrl13(TosPriorityCtrl13 { bits: v }),
            Address::TosPriorityCtrl14 => State::TosPriorityCtrl14(TosPriorityCtrl14 { bits: v }),
            Address::TosPriorityCtrl15 => State::TosPriorityCtrl15(TosPriorityCtrl15 { bits: v }),
            Address::MacAddr0 => State::MacAddr0(MacAddr0 { bits: v }),
            Address::MacAddr1 => State::MacAddr1(MacAddr1 { bits: v }),
            Address::MacAddr2 => State::MacAddr2(MacAddr2 { bits: v }),
            Address::MacAddr3 => State::MacAddr3(MacAddr3 { bits: v }),
            Address::MacAddr4 => State::MacAddr4(MacAddr4 { bits: v }),
            Address::MacAddr5 => State::MacAddr5(MacAddr5 { bits: v }),
            Address::UserDef1 => State::UserDef1(UserDef1 { bits: v }),
            Address::UserDef2 => State::UserDef2(UserDef2 { bits: v }),
            Address::UserDef3 => State::UserDef3(UserDef3 { bits: v }),
            Address::IndirectAccessCtrl0 => State::IndirectAccessCtrl0(IndirectAccessCtrl0 { bits: v }),
            Address::IndirectAccessCtrl1 => State::IndirectAccessCtrl1(IndirectAccessCtrl1 { bits: v }),
            Address::IndirectData8 => State::IndirectData8(IndirectData8 { bits: v }),
            Address::IndirectData7 => State::IndirectData7(IndirectData7 { bits: v }),
            Address::IndirectData6 => State::IndirectData6(IndirectData6 { bits: v }),
            Address::IndirectData5 => State::IndirectData5(IndirectData5 { bits: v }),
            Address::IndirectData4 => State::IndirectData4(IndirectData4 { bits: v }),
            Address::IndirectData3 => State::IndirectData3(IndirectData3 { bits: v }),
            Address::IndirectData2 => State::IndirectData2(IndirectData2 { bits: v }),
            Address::IndirectData1 => State::IndirectData1(IndirectData1 { bits: v }),
            Address::IndirectData0 => State::IndirectData0(IndirectData0 { bits: v }),
            Address::Station1MacAddr0 => State::Station1MacAddr0(Station1MacAddr0 { bits: v }),
            Address::Station1MacAddr1 => State::Station1MacAddr1(Station1MacAddr1 { bits: v }),
            Address::Station1MacAddr2 => State::Station1MacAddr2(Station1MacAddr2 { bits: v }),
            Address::Station1MacAddr3 => State::Station1MacAddr3(Station1MacAddr3 { bits: v }),
            Address::Station1MacAddr4 => State::Station1MacAddr4(Station1MacAddr4 { bits: v }),
            Address::Station1MacAddr5 => State::Station1MacAddr5(Station1MacAddr5 { bits: v }),
            Address::Station2MacAddr0 => State::Station2MacAddr0(Station2MacAddr0 { bits: v }),
            Address::Station2MacAddr1 => State::Station2MacAddr1(Station2MacAddr1 { bits: v }),
            Address::Station2MacAddr2 => State::Station2MacAddr2(Station2MacAddr2 { bits: v }),
            Address::Station2MacAddr3 => State::Station2MacAddr3(Station2MacAddr3 { bits: v }),
            Address::Station2MacAddr4 => State::Station2MacAddr4(Station2MacAddr4 { bits: v }),
            Address::Station2MacAddr5 => State::Station2MacAddr5(Station2MacAddr5 { bits: v }),
            Address::Mode => State::Mode(Mode { bits: v }),
            Address::HighPriorityPacketBufferQ3 => State::HighPriorityPacketBufferQ3(HighPriorityPacketBufferQ3 { bits: v }),
            Address::HighPriorityPacketBufferQ2 => State::HighPriorityPacketBufferQ2(HighPriorityPacketBufferQ2 { bits: v }),
            Address::HighPriorityPacketBufferQ1 => State::HighPriorityPacketBufferQ1(HighPriorityPacketBufferQ1 { bits: v }),
            Address::HighPriorityPacketBufferQ0 => State::HighPriorityPacketBufferQ0(HighPriorityPacketBufferQ0 { bits: v }),
            Address::PmUsageFlowCtrlSelectMode1 => State::PmUsageFlowCtrlSelectMode1(PmUsageFlowCtrlSelectMode1 { bits: v }),
            Address::PmUsageFlowCtrlSelectMode2 => State::PmUsageFlowCtrlSelectMode2(PmUsageFlowCtrlSelectMode2 { bits: v }),
            Address::PmUsageFlowCtrlSelectMode3 => State::PmUsageFlowCtrlSelectMode3(PmUsageFlowCtrlSelectMode3 { bits: v }),
            Address::PmUsageFlowCtrlSelectMode4 => State::PmUsageFlowCtrlSelectMode4(PmUsageFlowCtrlSelectMode4 { bits: v }),
            Address::Port1TxqSplitForQ3 => State::Port1TxqSplitForQ3(Port1TxqSplitForQ3 { bits: v }),
            Address::Port1TxqSplitForQ2 => State::Port1TxqSplitForQ2(Port1TxqSplitForQ2 { bits: v }),
            Address::Port1TxqSplitForQ1 => State::Port1TxqSplitForQ1(Port1TxqSplitForQ1 { bits: v }),
            Address::Port1TxqSplitForQ0 => State::Port1TxqSplitForQ0(Port1TxqSplitForQ0 { bits: v }),
            Address::Port2TxqSplitForQ3 => State::Port2TxqSplitForQ3(Port2TxqSplitForQ3 { bits: v }),
            Address::Port2TxqSplitForQ2 => State::Port2TxqSplitForQ2(Port2TxqSplitForQ2 { bits: v }),
            Address::Port2TxqSplitForQ1 => State::Port2TxqSplitForQ1(Port2TxqSplitForQ1 { bits: v }),
            Address::Port2TxqSplitForQ0 => State::Port2TxqSplitForQ0(Port2TxqSplitForQ0 { bits: v }),
            Address::Port3TxqSplitForQ3 => State::Port3TxqSplitForQ3(Port3TxqSplitForQ3 { bits: v }),
            Address::Port3TxqSplitForQ2 => State::Port3TxqSplitForQ2(Port3TxqSplitForQ2 { bits: v }),
            Address::Port3TxqSplitForQ1 => State::Port3TxqSplitForQ1(Port3TxqSplitForQ1 { bits: v }),
            Address::Port3TxqSplitForQ0 => State::Port3TxqSplitForQ0(Port3TxqSplitForQ0 { bits: v }),
            Address::InterruptEnable => State::InterruptEnable(InterruptEnable { bits: v }),
            Address::LinkChangeInterrupt => State::LinkChangeInterrupt(LinkChangeInterrupt { bits: v }),
            Address::ForcePauseOff => State::ForcePauseOff(ForcePauseOff { bits: v }),
            Address::FiberSignalThreshold => State::FiberSignalThreshold(FiberSignalThreshold { bits: v }),
            Address::InternalLdoCtrl => State::InternalLdoCtrl(InternalLdoCtrl { bits: v }),
            Address::InsertSrcPvid => State::InsertSrcPvid(InsertSrcPvid { bits: v }),
            Address::PwrMgmtAndLedMode => State::PwrMgmtAndLedMode(PwrMgmtAndLedMode { bits: v }),
            Address::SleepMode => State::SleepMode(SleepMode { bits: v }),
            Address::FwdInvalidVidFrameAndHostMode => State::FwdInvalidVidFrameAndHostMode(FwdInvalidVidFrameAndHostMode { bits: v }),
        }
    }

    /// The slot of the address holds the address back.
    pub proof fn lemma_index(self)
        ensures
            0 <= index_of(self) < COUNT,
            address_at(index_of(self)) == self,
    {
    }

    /// The code of the address names the address, and no other code does.
    pub proof fn lemma_code(self)
        ensures
            address_of(code_of(self)) == Some(self),
            forall|c: u8| address_of(c) == Some(self) <==> code_of(self) == c,
    {
    }

    /// The state built at this address holds the address and the word it was built from.
    #[verifier::spinoff_prover]
    #[verifier::rlimit(100)]
    pub proof fn lemma_state(self, v: u8)
        ensures
            state_of(self, v).spec_addr() == self,
            state_of(self, v).spec_bits() == v,
    {
        match self {
            Address::ChipId0 => <ChipId0 as Register>::lemma_from_bits(v),
            Address::ChipId1 => <ChipId1 as Register>::lemma_from_bits(v),
            Address::Gc0 => <Gc0 as Register>::lemma_from_bits(v),
            Address::Gc1 => <Gc1 as Register>::lemma_from_bits(v),
            Address::Gc2 => <Gc2 as Register>::lemma_from_bits(v),
            Address::Gc3 => <Gc3 as Register>::lemma_from_bits(v),
            Address::Gc4 => <Gc4 as Register>::lemma_from_bits(v),
            Address::Gc5 => <Gc5 as Register>::lemma_from_bits(v),
            Address::Gc9 => <Gc9 as Register>::lemma_from_bits(v),
            Address::Gc10 => <Gc10 as Register>::lemma_from_bits(v),
            Address::Gc11 => <Gc11 as Register>::lemma_from_bits(v),
            Address::Gc12 => <Gc12 as Register>::lemma_from_bits(v),
            Address::Gc13 => <Gc13 as Register>::lemma_from_bits(v),
            Address::Port1Ctrl0 => <Port1Ctrl0 as Register>::lemma_from_bits(v),
            Address::Port1Ctrl1 => <Port1Ctrl1 as Register>::lemma_from_bits(v),
            Address::Port1Ctrl2 => <Port1Ctrl2 as Register>::lemma_from_bits(v),
            Address::Port1Ctrl3 => <Port1Ctrl3 as Register>::lemma_from_bits(v),
            Address::Port1Ctrl4 => <Port1Ctrl4 as Register>::lemma_from_bits(v),
            Address::Port1Ctrl5 => <Port1Ctrl5 as Register>::lemma_from_bits(v),
            Address::Port1Q0IngressRateLimit => <Port1Q0IngressRateLimit as Register>::lemma_from_bits(v),
            Address::Port1Q1IngressRateLimit => <Port1Q1IngressRateLimit as Register>::lemma_from_bits(v),
            Address::Port1Q2IngressRateLimit => <Port1Q2IngressRateLimit as Register>::lemma_from_bits(v),
            Address::Port1Q3IngressRateLimit => <Port1Q3IngressRateLimit as Register>::lemma_from_bits(v),
            Address::Port1PhySpecial => <Port1PhySpecial as Register>::lemma_from_bits(v),
            Address::Port1LinkMdResult => <Port1LinkMdResult as Register>::lemma_from_bits(v),
            Address::Port1Ctrl12 => <Port1Ctrl12 as Register>::lemma_from_bits(v),
            Address::Port1Ctrl13 => <Port1Ctrl13 as Register>::lemma_from_bits(v),
            Address::Port1Status0 => <Port1Status0 as Register>::lemma_from_bits(v),
            Address::Port1Status1 => <Port1Status1 as Register>::lemma_from_bits(v),
            Address::Port2Ctrl0 => <Port2Ctrl0 as Register>::lemma_from_bits(v),
            Address::Port2Ctrl1 => <Port2Ctrl1 as Register>::lemma_from_bits(v),
            Address::Port2Ctrl2 => <Port2Ctrl2 as Register>::lemma_from_bits(v),
            Address::Port2Ctrl3 => <Port2Ctrl3 as Register>::lemma_from_bits(v),
            Address::Port2Ctrl4 => <Port2Ctrl4 as Register>::lemma_from_bits(v),
            Address::Port2Ctrl5 => <Port2Ctrl5 as Register>::lemma_from_bits(v),
            Address::Port2Q0IngressRateLimit => <Port2Q0IngressRateLimit as Register>::lemma_from_bits(v),
            Address::Port2Q1IngressRateLimit => <Port2Q1IngressRateLimit as Register>::lemma_from_bits(v),
            Address::Port2Q2IngressRateLimit => <Port2Q2IngressRateLimit as Register>::lemma_from_bits(v),
            Address::Port2Q3IngressRateLimit => <Port2Q3IngressRateLimit as Register>::lemma_from_bits(v),
            Address::Port2PhySpecial => <Port2PhySpecial as Register>::lemma_from_bits(v),
            Address::Port2LinkMdResult => <Port2LinkMdResult as Register>::lemma_from_bits(v),
            Address::Port2Ctrl12 => <Port2Ctrl12 as Register>::lemma_from_bits(v),
            Address::Port2Ctrl13 => <Port2Ctrl13 as Register>::lemma_from_bits(v),
            Address::Port2Status0 => <Port2Status0 as Register>::lemma_from_bits(v),
            Address::Port2Status1 => <Port2Status1 as Register>::lemma_from_bits(v),
            Address::Port3Ctrl0 => <Port3Ctrl0 as Register>::lemma_from_bits(v),
            Address::Port3Ctrl1 => <Port3Ctrl1 as Register>::lemma_from_bits(v),
            Address::Port3Ctrl2 => <Port3Ctrl2 as Register>::lemma_from_bits(v),
            Address::Port3Ctrl3 => <Port3Ctrl3 as Register>::lemma_from_bits(v),
            Address::Port3Ctrl4 => <Port3Ctrl4 as Register>::lemma_from_bits(v),
            Address::Port3Ctrl5 => <Port3Ctrl5 as Register>::lemma_from_bits(v),
            Address::Port3Q0IngressRateLimit => <Port3Q0IngressRateLimit as Register>::lemma_from_bits(v),
            Address::Port3Q1IngressRateLimit => <Port3Q1IngressRateLimit as Register>::lemma_from_bits(v),
            Address::Port3Q2IngressRateLimit => <Port3Q2IngressRateLimit as Register>::lemma_from_bits(v),
            Address::Port3Q3IngressRateLimit => <Port3Q3IngressRateLimit as Register>::lemma_from_bits(v),
            Address::Port3Status1 => <Port3Status1 as Register>::lemma_from_bits(v),
            Address::Reset => <Reset as Register>::lemma_from_bits(v),
            Address::TosPriorityCtrl0 => <TosPriorityCtrl0 as Register>::lemma_from_bits(v),
            Address::TosPriorityCtrl1 => <TosPriorityCtrl1 as Register>::lemma_from_bits(v),
            Address::TosPriorityCtrl2 => <TosPriorityCtrl2 as Register>::lemma_from_bits(v),
            Address::TosPriorityCtrl3 => <TosPriorityCtrl3 as Register>::lemma_from_bits(v),
            Address::TosPriorityCtrl4 => <TosPriorityCtrl4 as Register>::lemma_from_bits(v),
            Address::TosPriorityCtrl5 => <TosPriorityCtrl5 as Register>::lemma_from_bits(v),
            Address::TosPriorityCtrl6 => <TosPriorityCtrl6 as Register>::lemma_from_bits(v),
            Address::TosPriorityCtrl7 => <TosPriorityCtrl7 as Register>::lemma_from_bits(v),
            Address::TosPriorityCtrl8 => <TosPriorityCtrl8 as Register>::lemma_from_bits(v),
            Address::TosPriorityCtrl9 => <TosPriorityCtrl9 as Register>::lemma_from_bits(v),
            Address::TosPriorityCtrl10 => <TosPriorityCtrl10 as Register>::lemma_from_bits(v),
            Address::TosPriorityCtrl11 => <TosPriorityCtrl11 as Register>::lemma_from_bits(v),
            Address::TosPriorityCtrl12 => <TosPriorityCtrl12 as Register>::lemma_from_bits(v),
            Address::TosPriorityCtrl13 => <TosPriorityCtrl13 as Register>::lemma_from_bits(v),
            Address::TosPriorityCtrl14 => <TosPriorityCtrl14 as Register>::lemma_from_bits(v),
            Address::TosPriorityCtrl15 => <TosPriorityCtrl15 as Register>::lemma_from_bits(v),
            Address::MacAddr0 => <MacAddr0 as Register>::lemma_from_bits(v),
            Address::MacAddr1 => <MacAddr1 as Register>::lemma_from_bits(v),
            Address::MacAddr2 => <MacAddr2 as Register>::lemma_from_bits(v),
            Address::MacAddr3 => <MacAddr3 as Register>::lemma_from_bits(v),
            Address::MacAddr4 => <MacAddr4 as Register>::lemma_from_bits(v),
            Address::MacAddr5 => <MacAddr5 as Register>::lemma_from_bits(v),
            Address::UserDef1 => <UserDef1 as Register>::lemma_from_bits(v),
            Address::UserDef2 => <UserDef2 as Register>::lemma_from_bits(v),
            Address::UserDef3 => <UserDef3 as Register>::lemma_from_bits(v),
            Address::IndirectAccessCtrl0 => <IndirectAccessCtrl0 as Register>::lemma_from_bits(v),
            Address::IndirectAccessCtrl1 => <IndirectAccessCtrl1 as Register>::lemma_from_bits(v),
            Address::IndirectData8 => <IndirectData8 as Register>::lemma_from_bits(v),
            Address::IndirectData7 => <IndirectData7 as Register>::lemma_from_bits(v),
            Address::IndirectData6 => <IndirectData6 as Register>::lemma_from_bits(v),
            Address::IndirectData5 => <IndirectData5 as Register>::lemma_from_bits(v),
            Address::IndirectData4 => <IndirectData4 as Register>::lemma_from_bits(v),
            Address::IndirectData3 => <IndirectData3 as Register>::lemma_from_bits(v),
            Address::IndirectData2 => <IndirectData2 as Register>::lemma_from_bits(v),
            Address::IndirectData1 => <IndirectData1 as Register>::lemma_from_bits(v),
            Address::IndirectData0 => <IndirectData0 as Register>::lemma_from_bits(v),
            Address::Station1MacAddr0 => <Station1MacAddr0 as Register>::lemma_from_bits(v),
            Address::Station1MacAddr1 => <Station1MacAddr1 as Register>::lemma_from_bits(v),
            Address::Station1MacAddr2 => <Station1MacAddr2 as Register>::lemma_from_bits(v),
            Address::Station1MacAddr3 => <Station1MacAddr3 as Register>::lemma_from_bits(v),
            Address::Station1MacAddr4 => <Station1MacAddr4 as Register>::lemma_from_bits(v),
            Address::Station1MacAddr5 => <Station1MacAddr5 as Register>::lemma_from_bits(v),
            Address::Station2MacAddr0 => <Station2MacAddr0 as Register>::lemma_from_bits(v),
            Address::Station2MacAddr1 => <Station2MacAddr1 as Register>::lemma_from_bits(v),
            Address::Station2MacAddr2 => <Station2MacAddr2 as Register>::lemma_from_bits(v),
            Address::Station2MacAddr3 => <Station2MacAddr3 as Register>::lemma_from_bits(v),
            Address::Station2MacAddr4 => <Station2MacAddr4 as Register>::lemma_from_bits(v),
            Address::Station2MacAddr5 => <Station2MacAddr5 as Register>::lemma_from_bits(v),
            Address::Mode => <Mode as Register>::lemma_from_bits(v),
            Address::HighPriorityPacketBufferQ3 => <HighPriorityPacketBufferQ3 as Register>::lemma_from_bits(v),
            Address::HighPriorityPacketBufferQ2 => <HighPriorityPacketBufferQ2 as Register>::lemma_from_bits(v),
            Address::HighPriorityPacketBufferQ1 => <HighPriorityPacketBufferQ1 as Register>::lemma_from_bits(v),
            Address::HighPriorityPacketBufferQ0 => <HighPriorityPacketBufferQ0 as Register>::lemma_from_bits(v),
            Address::PmUsageFlowCtrlSelectMode1 => <PmUsageFlowCtrlSelectMode1 as Register>::lemma_from_bits(v),
            Address::PmUsageFlowCtrlSelectMode2 => <PmUsageFlowCtrlSelectMode2 as Register>::lemma_from_bits(v),
            Address::PmUsageFlowCtrlSelectMode3 => <PmUsageFlowCtrlSelectMode3 as Register>::lemma_from_bits(v),
            Address::PmUsageFlowCtrlSelectMode4 => <PmUsageFlowCtrlSelectMode4 as Register>::lemma_from_bits(v),
            Address::Port1TxqSplitForQ3 => <Port1TxqSplitForQ3 as Register>::lemma_from_bits(v),
            Address::Port1TxqSplitForQ2 => <Port1TxqSplitForQ2 as Register>::lemma_from_bits(v),
            Address::Port1TxqSplitForQ1 => <Port1TxqSplitForQ1 as Register>::lemma_from_bits(v),
            Address::Port1TxqSplitForQ0 => <Port1TxqSplitForQ0 as Register>::lemma_from_bits(v),
            Address::Port2TxqSplitForQ3 => <Port2TxqSplitForQ3 as Register>::lemma_from_bits(v),
            Address::Port2TxqSplitForQ2 => <Port2TxqSplitForQ2 as Register>::lemma_from_bits(v),
            Address::Port2TxqSplitForQ1 => <Port2TxqSplitForQ1 as Register>::lemma_from_bits(v),
            Address::Port2TxqSplitForQ0 => <Port2TxqSplitForQ0 as Register>::lemma_from_bits(v),
            Address::Port3TxqSplitForQ3 => <Port3TxqSplitForQ3 as Register>::lemma_from_bits(v),
            Address::Port3TxqSplitForQ2 => <Port3TxqSplitForQ2 as Register>::lemma_from_bits(v),
            Address::Port3TxqSplitForQ1 => <Port3TxqSplitForQ1 as Register>::lemma_from_bits(v),
            Address::Port3TxqSplitForQ0 => <Port3TxqSplitForQ0 as Register>::lemma_from_bits(v),
            Address::InterruptEnable => <InterruptEnable as Register>::lemma_from_bits(v),
            Address::LinkChangeInterrupt => <LinkChangeInterrupt as Register>::lemma_from_bits(v),
            Address::ForcePauseOff => <ForcePauseOff as Register>::lemma_from_bits(v),
            Address::FiberSignalThreshold => <FiberSignalThreshold as Register>::lemma_from_bits(v),
            Address::InternalLdoCtrl => <InternalLdoCtrl as Register>::lemma_from_bits(v),
            Address::InsertSrcPvid => <InsertSrcPvid as Register>::lemma_from_bits(v),
            Address::PwrMgmtAndLedMode => <PwrMgmtAndLedMode as Register>::lemma_from_bits(v),
            Address::SleepMode => <SleepMode as Register>::lemma_from_bits(v),
            Address::FwdInvalidVidFrameAndHostMode => <FwdInvalidVidFrameAndHostMode as Register>::lemma_from_bits(v),
        }
    }
}

/// A dynamic representation of a register's state.
#[derive(Clone, Copy, Debug, PartialEq, Eq, Structural, Hash)]
pub enum State {
    ChipId0(ChipId0),
    ChipId1(ChipId1),
    Gc0(Gc0),
    Gc1(Gc1),
    Gc2(Gc2),
    Gc3(Gc3),
    Gc4(Gc4),
    Gc5(Gc5),
    Gc9(Gc9),
    Gc10(Gc10),
    Gc11(Gc11),
    Gc12(Gc12),
    Gc13(Gc13),
    Port1Ctrl0(Port1Ctrl0),
    Port1Ctrl1(Port1Ctrl1),
    Port1Ctrl2(Port1Ctrl2),
    Port1Ctrl3(Port1Ctrl3),
    Port1Ctrl4(Port1Ctrl4),
    Port1Ctrl5(Port1Ctrl5),
    Port1Q0IngressRateLimit(Port1Q0IngressRateLimit),
    Port1Q1IngressRateLimit(Port1Q1IngressRateLimit),
    Port1Q2IngressRateLimit(Port1Q2IngressRateLimit),
    Port1Q3IngressRateLimit(Port1Q3IngressRateLimit),
    Port1PhySpecial(Port1PhySpecial),
    Port1LinkMdResult(Port1LinkMdResult),
    Port1Ctrl12(Port1Ctrl12),
    Port1Ctrl13(Port1Ctrl13),
    Port1Status0(Port1Status0),
    Port1Status1(Port1Status1),
    Port2Ctrl0(Port2Ctrl0),
    Port2Ctrl1(Port2Ctrl1),
    Port2Ctrl2(Port2Ctrl2),
    Port2Ctrl3(Port2Ctrl3),
    Port2Ctrl4(Port2Ctrl4),
    Port2Ctrl5(Port2Ctrl5),
    Port2Q0IngressRateLimit(Port2Q0IngressRateLimit),
    Port2Q1IngressRateLimit(Port2Q1IngressRateLimit),
    Port2Q2IngressRateLimit(Port2Q2IngressRateLimit),
    Port2Q3IngressRateLimit(Port2Q3IngressRateLimit),
    Port2PhySpecial(Port2PhySpecial),
    Port2LinkMdResult(Port2LinkMdResult),
    Port2Ctrl12(Port2Ctrl12),
    Port2Ctrl13(Port2Ctrl13),
    Port2Status0(Port2Status0),
    Port2Status1(Port2Status1),
    Port3Ctrl0(Port3Ctrl0),
    Port3Ctrl1(Port3Ctrl1),
    Port3Ctrl2(Port3Ctrl2),
    Port3Ctrl3(Port3Ctrl3),
    Port3Ctrl4(Port3Ctrl4),
    Port3Ctrl5(Port3Ctrl5),
    Port3Q0IngressRateLimit(Port3Q0IngressRateLimit),
    Port3Q1IngressRateLimit(Port3Q1IngressRateLimit),
    Port3Q2IngressRateLimit(Port3Q2IngressRateLimit),
    Port3Q3IngressRateLimit(Port3Q3IngressRateLimit),
    Port3Status1(Port3Status1),
    Reset(Reset),
    TosPriorityCtrl0(TosPriorityCtrl0),
    TosPriorityCtrl1(TosPriorityCtrl1),
    TosPriorityCtrl2(TosPriorityCtrl2),
    TosPriorityCtrl3(TosPriorityCtrl3),
    TosPriorityCtrl4(TosPriorityCtrl4),
    TosPriorityCtrl5(TosPriorityCtrl5),
    TosPriorityCtrl6(TosPriorityCtrl6),
    TosPriorityCtrl7(TosPriorityCtrl7),
    TosPriorityCtrl8(TosPriorityCtrl8),
    TosPriorityCtrl9(TosPriorityCtrl9),
    TosPriorityCtrl10(TosPriorityCtrl10),
    TosPriorityCtrl11(TosPriorityCtrl11),
    TosPriorityCtrl12(TosPriorityCtrl12),
    TosPriorityCtrl13(TosPriorityCtrl13),
    TosPriorityCtrl14(TosPriorityCtrl14),
    TosPriorityCtrl15(TosPriorityCtrl15),
    MacAddr0(MacAddr0),
    MacAddr1(MacAddr1),
    MacAddr2(MacAddr2),
    MacAddr3(MacAddr3),
    MacAddr4(MacAddr4),
    MacAddr5(MacAddr5),
    UserDef1(UserDef1),
    UserDef2(UserDef2),
    UserDef3(UserDef3),
    IndirectAccessCtrl0(IndirectAccessCtrl0),
    IndirectAccessCtrl1(IndirectAccessCtrl1),
    IndirectData8(IndirectData8),
    IndirectData7(IndirectData7),
    IndirectData6(IndirectData6),
    IndirectData5(IndirectData5),
    IndirectData4(IndirectData4),
    IndirectData3(IndirectData3),
    IndirectData2(IndirectData2),
    IndirectData1(IndirectData1),
    IndirectData0(IndirectData0),
    Station1MacAddr0(Station1MacAddr0),
    Station1MacAddr1(Station1MacAddr1),
    Station1MacAddr2(Station1MacAddr2),
    Station1MacAddr3(Station1MacAddr3),
    Station1MacAddr4(Station1MacAddr4),
    Station1MacAddr5(Station1MacAddr5),
    Station2MacAddr0(Station2MacAddr0),
    Station2MacAddr1(Station2MacAddr1),
    Station2MacAddr2(Station2MacAddr2),
    Station2MacAddr3(Station2MacAddr3),
    Station2MacAddr4(Station2MacAddr4),
    Station2MacAddr5(Station2MacAddr5),
    Mode(Mode),
    HighPriorityPacketBufferQ3(HighPriorityPacketBufferQ3),
    HighPriorityPacketBufferQ2(HighPriorityPacketBufferQ2),
    HighPriorityPacketBufferQ1(HighPriorityPacketBufferQ1),
    HighPriorityPacketBufferQ0(HighPriorityPacketBufferQ0),
    PmUsageFlowCtrlSelectMode1(PmUsageFlowCtrlSelectMode1),
    PmUsageFlowCtrlSelectMode2(PmUsageFlowCtrlSelectMode2),
    PmUsageFlowCtrlSelectMode3(PmUsageFlowCtrlSelectMode3),
    PmUsageFlowCtrlSelectMode4(PmUsageFlowCtrlSelectMode4),
    Port1TxqSplitForQ3(Port1TxqSplitForQ3),
    Port1TxqSplitForQ2(Port1TxqSplitForQ2),
    Port1TxqSplitForQ1(Port1TxqSplitForQ1),
    Port1TxqSplitForQ0(Port1TxqSplitForQ0),
    Port2TxqSplitForQ3(Port2TxqSplitForQ3),
    Port2TxqSplitForQ2(Port2TxqSplitForQ2),
    Port2TxqSplitForQ1(Port2TxqSplitForQ1),
    Port2TxqSplitForQ0(Port2TxqSplitForQ0),
    Port3TxqSplitForQ3(Port3TxqSplitForQ3),
    Port3TxqSplitForQ2(Port3TxqSplitForQ2),
    Port3TxqSplitForQ1(Port3TxqSplitForQ1),
    Port3TxqSplitForQ0(Port3TxqSplitForQ0),
    InterruptEnable(InterruptEnable),
    LinkChangeInterrupt(LinkChangeInterrupt),
    ForcePauseOff(ForcePauseOff),
    FiberSignalThreshold(FiberSignalThreshold),
    InternalLdoCtrl(InternalLdoCtrl),
    InsertSrcPvid(InsertSrcPvid),
    PwrMgmtAndLedMode(PwrMgmtAndLedMode),
    SleepMode(SleepMode),
    FwdInvalidVidFrameAndHostMode(FwdInvalidVidFrameAndHostMode),
}

impl State {
    /// The address of the register held.
    pub open spec fn spec_addr(self) -> Address {
        match self {
            State::ChipId0(_) => Address::ChipId0,
            State::ChipId1(_) => Address::ChipId1,
            State::Gc0(_) => Address::Gc0,
            State::Gc1(_) => Address::Gc1,
            State::Gc2(_) => Address::Gc2,
            State::Gc3(_) => Address::Gc3,
            State::Gc4(_) => Address::Gc4,
            State::Gc5(_) => Address::Gc5,
            State::Gc9(_) => Address::Gc9,
            State::Gc10(_) => Address::Gc10,
            State::Gc11(_) => Address::Gc11,
            State::Gc12(_) => Address::Gc12,
            State::Gc13(_) => Address::Gc13,
            State::Port1Ctrl0(_) => Address::Port1Ctrl0,
            State::Port1Ctrl1(_) => Address::Port1Ctrl1,
            State::Port1Ctrl2(_) => Address::Port1Ctrl2,
            State::Port1Ctrl3(_) => Address::Port1Ctrl3,
            State::Port1Ctrl4(_) => Address::Port1Ctrl4,
            State::Port1Ctrl5(_) => Address::Port1Ctrl5,
            State::Port1Q0IngressRateLimit(_) => Address::Port1Q0IngressRateLimit,
            State::Port1Q1IngressRateLimit(_) => Address::Port1Q1IngressRateLimit,
            State::Port1Q2IngressRateLimit(_) => Address::Port1Q2IngressRateLimit,
            State::Port1Q3IngressRateLimit(_) => Address::Port1Q3IngressRateLimit,
            State::Port1PhySpecial(_) => Address::Port1PhySpecial,
            State::Port1LinkMdResult(_) => Address::Port1LinkMdResult,
            State::Port1Ctrl12(_) => Address::Port1Ctrl12,
            State::Port1Ctrl13(_) => Address::Port1Ctrl13,
            State::Port1Status0(_) => Address::Port1Status0,
            State::Port1Status1(_) => Address::Port1Status1,
            State::Port2Ctrl0(_) => Address::Port2Ctrl0,
            State::Port2Ctrl1(_) => Address::Port2Ctrl1,
            State::Port2Ctrl2(_) => Address::Port2Ctrl2,
            State::Port2Ctrl3(_) => Address::Port2Ctrl3,
            State::Port2Ctrl4(_) => Address::Port2Ctrl4,
            State::Port2Ctrl5(_) => Address::Port2Ctrl5,
            State::Port2Q0IngressRateLimit(_) => Address::Port2Q0IngressRateLimit,
            State::Port2Q1IngressRateLimit(_) => Address::Port2Q1IngressRateLimit,
            State::Port2Q2IngressRateLimit(_) => Address::Port2Q2IngressRateLimit,
            State::Port2Q3IngressRateLimit(_) => Address::Port2Q3IngressRateLimit,
            State::Port2PhySpecial(_) => Address::Port2PhySpecial,
            State::Port2LinkMdResult(_) => Address::Port2LinkMdResult,
            State::Port2Ctrl12(_) => Address::Port2Ctrl12,
            State::Port2Ctrl13(_) => Address::Port2Ctrl13,
            State::Port2Status0(_) => Address::Port2Status0,
            State::Port2Status1(_) => Address::Port2Status1,
            State::Port3Ctrl0(_) => Address::Port3Ctrl0,
            State::Port3Ctrl1(_) => Address::Port3Ctrl1,
            State::Port3Ctrl2(_) => Address::Port3Ctrl2,
            State::Port3Ctrl3(_) => Address::Port3Ctrl3,
            State::Port3Ctrl4(_) => Address::Port3Ctrl4,
            State::Port3Ctrl5(_) => Address::Port3Ctrl5,
            State::Port3Q0IngressRateLimit(_) => Address::Port3Q0IngressRateLimit,
            State::Port3Q1IngressRateLimit(_) => Address::Port3Q1IngressRateLimit,
            State::Port3Q2IngressRateLimit(_) => Address::Port3Q2IngressRateLimit,
            State::Port3Q3IngressRateLimit(_) => Address::Port3Q3IngressRateLimit,
            State::Port3Status1(_) => Address::Port3Status1,
            State::Reset(_) => Address::Reset,
            State::TosPriorityCtrl0(_) => Address::TosPriorityCtrl0,
            State::TosPriorityCtrl1(_) => Address::TosPriorityCtrl1,
            State::TosPriorityCtrl2(_) => Address::TosPriorityCtrl2,
            State::TosPriorityCtrl3(_) => Address::TosPriorityCtrl3,
            State::TosPriorityCtrl4(_) => Address::TosPriorityCtrl4,
            State::TosPriorityCtrl5(_) => Address::TosPriorityCtrl5,
            State::TosPriorityCtrl6(_) => Address::TosPriorityCtrl6,
            State::TosPriorityCtrl7(_) => Address::TosPriorityCtrl7,
            State::TosPriorityCtrl8(_) => Address::TosPriorityCtrl8,
            State::TosPriorityCtrl9(_) => Address::TosPriorityCtrl9,
            State::TosPriorityCtrl10(_) => Address::TosPriorityCtrl10,
            State::TosPriorityCtrl11(_) => Address::TosPriorityCtrl11,
            State::TosPriorityCtrl12(_) => Address::TosPriorityCtrl12,
            State::TosPriorityCtrl13(_) => Address::TosPriorityCtrl13,
            State::TosPriorityCtrl14(_) => Address::TosPriorityCtrl14,
            State::TosPriorityCtrl15(_) => Address::TosPriorityCtrl15,
            State::MacAddr0(_) => Address::MacAddr0,
            State::MacAddr1(_) => Address::MacAddr1,
            State::MacAddr2(_) => Address::MacAddr2,
            State::MacAddr3(_) => Address::MacAddr3,
            State::MacAddr4(_) => Address::MacAddr4,
            State::MacAddr5(_) => Address::MacAddr5,
            State::UserDef1(_) => Address::UserDef1,
            State::UserDef2(_) => Address::UserDef2,
            State::UserDef3(_) => Address::UserDef3,
            State::IndirectAccessCtrl0(_) => Address::IndirectAccessCtrl0,
            State::IndirectAccessCtrl1(_) => Address::IndirectAccessCtrl1,
            State::IndirectData8(_) => Address::IndirectData8,
            State::IndirectData7(_) => Address::IndirectData7,
            State::IndirectData6(_) => Address::IndirectData6,
            State::IndirectData5(_) => Address::IndirectData5,
            State::IndirectData4(_) => Address::IndirectData4,
            State::IndirectData3(_) => Address::IndirectData3,
            State::IndirectData2(_) => Address::IndirectData2,
            State::IndirectData1(_) => Address::IndirectData1,
            State::IndirectData0(_) => Address::IndirectData0,
            State::Station1MacAddr0(_) => Address::Station1MacAddr0,
            State::Station1MacAddr1(_) => Address::Station1MacAddr1,
            State::Station1MacAddr2(_) => Address::Station1MacAddr2,
            State::Station1MacAddr3(_) => Address::Station1MacAddr3,
            State::Station1MacAddr4(_) => Address::Station1MacAddr4,
            State::Station1MacAddr5(_) => Address::Station1MacAddr5,
            State::Station2MacAddr0(_) => Address::Station2MacAddr0,
            State::Station2MacAddr1(_) => Address::Station2MacAddr1,
            State::Station2MacAddr2(_) => Address::Station2MacAddr2,
            State::Station2MacAddr3(_) => Address::Station2MacAddr3,
            State::Station2MacAddr4(_) => Address::Station2MacAddr4,
            State::Station2MacAddr5(_) => Address::Station2MacAddr5,
            State::Mode(_) => Address::Mode,
            State::HighPriorityPacketBufferQ3(_) => Address::HighPriorityPacketBufferQ3,
            State::HighPriorityPacketBufferQ2(_) => Address::HighPriorityPacketBufferQ2,
            State::HighPriorityPacketBufferQ1(_) => Address::HighPriorityPacketBufferQ1,
            State::HighPriorityPacketBufferQ0(_) => Address::HighPriorityPacketBufferQ0,
            State::PmUsageFlowCtrlSelectMode1(_) => Address::PmUsageFlowCtrlSelectMode1,
            State::PmUsageFlowCtrlSelectMode2(_) => Address::PmUsageFlowCtrlSelectMode2,
            State::PmUsageFlowCtrlSelectMode3(_) => Address::PmUsageFlowCtrlSelectMode3,
            State::PmUsageFlowCtrlSelectMode4(_) => Address::PmUsageFlowCtrlSelectMode4,
            State::Port1TxqSplitForQ3(_) => Address::Port1TxqSplitForQ3,
            State::Port1TxqSplitForQ2(_) => Address::Port1TxqSplitForQ2,
            State::Port1TxqSplitForQ1(_) => Address::Port1TxqSplitForQ1,
            State::Port1TxqSplitForQ0(_) => Address::Port1TxqSplitForQ0,
            State::Port2TxqSplitForQ3(_) => Address::Port2TxqSplitForQ3,
            State::Port2TxqSplitForQ2(_) => Address::Port2TxqSplitForQ2,
            State::Port2TxqSplitForQ1(_) => Address::Port2TxqSplitForQ1,
            State::Port2TxqSplitForQ0(_) => Address::Port2TxqSplitForQ0,
            State::Port3TxqSplitForQ3(_) => Address::Port3TxqSplitForQ3,
            State::Port3TxqSplitForQ2(_) => Address::Port3TxqSplitForQ2,
            State::Port3TxqSplitForQ1(_) => Address::Port3TxqSplitForQ1,
            State::Port3TxqSplitForQ0(_) => Address::Port3TxqSplitForQ0,
            State::InterruptEnable(_) => Address::InterruptEnable,
            State::LinkChangeInterrupt(_) => Address::LinkChangeInterrupt,
            State::ForcePauseOff(_) => Address::ForcePauseOff,
            State::FiberSignalThreshold(_) => Address::FiberSignalThreshold,
            State::InternalLdoCtrl(_) => Address::InternalLdoCtrl,
            State::InsertSrcPvid(_) => Address::InsertSrcPvid,
            State::PwrMgmtAndLedMode(_) => Address::PwrMgmtAndLedMode,
            State::SleepMode(_) => Address::SleepMode,
            State::FwdInvalidVidFrameAndHostMode(_) => Address::FwdInvalidVidFrameAndHostMode,
        }
    }

    /// The raw word of the register held.
    pub open spec fn spec_bits(self) -> u8 {
        match self {
            State::ChipId0(r) => r@,
            State::ChipId1(r) => r@,
            State::Gc0(r) => r@,
            State::Gc1(r) => r@,
            State::Gc2(r) => r@,
            State::Gc3(r) => r@,
            State::Gc4(r) => r@,
            State::Gc5(r) => r@,
            State::Gc9(r) => r@,
            State::Gc10(r) => r@,
            State::Gc11(r) => r@,
            State::Gc12(r) => r@,
            State::Gc13(r) => r@,
            State::Port1Ctrl0(r) => r@,
            State::Port1Ctrl1(r) => r@,
            State::Port1Ctrl2(r) => r@,
            State::Port1Ctrl3(r) => r@,
            State::Port1Ctrl4(r) => r@,
            State::Port1Ctrl5(r) => r@,
            State::Port1Q0IngressRateLimit(r) => r@,
            State::Port1Q1IngressRateLimit(r) => r@,
            State::Port1Q2IngressRateLimit(r) => r@,
            State::Port1Q3IngressRateLimit(r) => r@,
            State::Port1PhySpecial(r) => r@,
            State::Port1LinkMdResult(r) => r@,
            State::Port1Ctrl12(r) => r@,
            State::Port1Ctrl13(r) => r@,
            State::Port1Status0(r) => r@,
            State::Port1Status1(r) => r@,
            State::Port2Ctrl0(r) => r@,
            State::Port2Ctrl1(r) => r@,
            State::Port2Ctrl2(r) => r@,
            State::Port2Ctrl3(r) => r@,
            State::Port2Ctrl4(r) => r@,
            State::Port2Ctrl5(r) => r@,
            State::Port2Q0IngressRateLimit(r) => r@,
            State::Port2Q1IngressRateLimit(r) => r@,
            State::Port2Q2IngressRateLimit(r) => r@,
            State::Port2Q3IngressRateLimit(r) => r@,
            State::Port2PhySpecial(r) => r@,
            State::Port2LinkMdResult(r) => r@,
            State::Port2Ctrl12(r) => r@,
            State::Port2Ctrl13(r) => r@,
            State::Port2Status0(r) => r@,
            State::Port2Status1(r) => r@,
            State::Port3Ctrl0(r) => r@,
            State::Port3Ctrl1(r) => r@,
            State::Port3Ctrl2(r) => r@,
            State::Port3Ctrl3(r) => r@,
            State::Port3Ctrl4(r) => r@,
            State::Port3Ctrl5(r) => r@,
            State::Port3Q0IngressRateLimit(r) => r@,
            State::Port3Q1IngressRateLimit(r) => r@,
            State::Port3Q2IngressRateLimit(r) => r@,
            State::Port3Q3IngressRateLimit(r) => r@,
            State::Port3Status1(r) => r@,
            State::Reset(r) => r@,
            State::TosPriorityCtrl0(r) => r@,
            State::TosPriorityCtrl1(r) => r@,
            State::TosPriorityCtrl2(r) => r@,
            State::TosPriorityCtrl3(r) => r@,
            State::TosPriorityCtrl4(r) => r@,
            State::TosPriorityCtrl5(r) => r@,
            State::TosPriorityCtrl6(r) => r@,
            State::TosPriorityCtrl7(r) => r@,
            State::TosPriorityCtrl8(r) => r@,
            State::TosPriorityCtrl9(r) => r@,
            State::TosPriorityCtrl10(r) => r@,
            State::TosPriorityCtrl11(r) => r@,
            State::TosPriorityCtrl12(r) => r@,
            State::TosPriorityCtrl13(r) => r@,
            State::TosPriorityCtrl14(r) => r@,
            State::TosPriorityCtrl15(r) => r@,
            State::MacAddr0(r) => r@,
            State::MacAddr1(r) => r@,
            State::MacAddr2(r) => r@,
            State::MacAddr3(r) => r@,
            State::MacAddr4(r) => r@,
            State::MacAddr5(r) => r@,
            State::UserDef1(r) => r@,
            State::UserDef2(r) => r@,
            State::UserDef3(r) => r@,
            State::IndirectAccessCtrl0(r) => r@,
            State::IndirectAccessCtrl1(r) => r@,
            State::IndirectData8(r) => r@,
            State::IndirectData7(r) => r@,
            State::IndirectData6(r) => r@,
            State::IndirectData5(r) => r@,
            State::IndirectData4(r) => r@,
            State::IndirectData3(r) => r@,
            State::IndirectData2(r) => r@,
            State::IndirectData1(r) => r@,
            State::IndirectData0(r) => r@,
            State::Station1MacAddr0(r) => r@,
            State::Station1MacAddr1(r) => r@,
            State::Station1MacAddr2(r) => r@,
            State::Station1MacAddr3(r) => r@,
            State::Station1MacAddr4(r) => r@,
            State::Station1MacAddr5(r) => r@,
            State::Station2MacAddr0(r) => r@,
            State::Station2MacAddr1(r) => r@,
            State::Station2MacAddr2(r) => r@,
            State::Station2MacAddr3(r) => r@,
            State::Station2MacAddr4(r) => r@,
            State::Station2MacAddr5(r) => r@,
            State::Mode(r) => r@,
            State::HighPriorityPacketBufferQ3(r) => r@,
            State::HighPriorityPacketBufferQ2(r) => r@,
            State::HighPriorityPacketBufferQ1(r) => r@,
            State::HighPriorityPacketBufferQ0(r) => r@,
            State::PmUsageFlowCtrlSelectMode1(r) => r@,
            State::PmUsageFlowCtrlSelectMode2(r) => r@,
            State::PmUsageFlowCtrlSelectMode3(r) => r@,
            State::PmUsageFlowCtrlSelectMode4(r) => r@,
            State::Port1TxqSplitForQ3(r) => r@,
            State::Port1TxqSplitForQ2(r) => r@,
            State::Port1TxqSplitForQ1(r) => r@,
            State::Port1TxqSplitForQ0(r) => r@,
            State::Port2TxqSplitForQ3(r) => r@,
            State::Port2TxqSplitForQ2(r) => r@,
            State::Port2TxqSplitForQ1(r) => r@,
            State::Port2TxqSplitForQ0(r) => r@,
            State::Port3TxqSplitForQ3(r) => r@,
            State::Port3TxqSplitForQ2(r) => r@,
            State::Port3TxqSplitForQ1(r) => r@,
            State::Port3TxqSplitForQ0(r) => r@,
            State::InterruptEnable(r) => r@,
            State::LinkChangeInterrupt(r) => r@,
            State::ForcePauseOff(r) => r@,
            State::FiberSignalThreshold(r) => r@,
            State::InternalLdoCtrl(r) => r@,
            State::InsertSrcPvid(r) => r@,
            State::PwrMgmtAndLedMode(r) => r@,
            State::SleepMode(r) => r@,
            State::FwdInvalidVidFrameAndHostMode(r) => r@,
        }
    }

    /// The address of the register with which this state is associated.
    pub fn addr(&self) -> (a: Address)
        ensures
            a == self.spec_addr(),
    {
        match self {
            State::ChipId0(_) => Address::ChipId0,
            State::ChipId1(_) => Address::ChipId1,
            State::Gc0(_) => Address::Gc0,
            State::Gc1(_) => Address::Gc1,
            State::Gc2(_) => Address::Gc2,
            State::Gc3(_) => Address::Gc3,
            State::Gc4(_) => Address::Gc4,
            State::Gc5(_) => Address::Gc5,
            State::Gc9(_) => Address::Gc9,
            State::Gc10(_) => Address::Gc10,
            State::Gc11(_) => Address::Gc11,
            State::Gc12(_) => Address::Gc12,
            State::Gc13(_) => Address::Gc13,
            State::Port1Ctrl0(_) => Address::Port1Ctrl0,
            State::Port1Ctrl1(_) => Address::Port1Ctrl1,
            State::Port1Ctrl2(_) => Address::Port1Ctrl2,
            State::Port1Ctrl3(_) => Address::Port1Ctrl3,
            State::Port1Ctrl4(_) => Address::Port1Ctrl4,
            State::Port1Ctrl5(_) => Address::Port1Ctrl5,
            State::Port1Q0IngressRateLimit(_) => Address::Port1Q0IngressRateLimit,
            State::Port1Q1IngressRateLimit(_) => Address::Port1Q1IngressRateLimit,
            State::Port1Q2IngressRateLimit(_) => Address::Port1Q2IngressRateLimit,
            State::Port1Q3IngressRateLimit(_) => Address::Port1Q3IngressRateLimit,
            State::Port1PhySpecial(_) => Address::Port1PhySpecial,
            State::Port1LinkMdResult(_) => Address::Port1LinkMdResult,
            State::Port1Ctrl12(_) => Address::Port1Ctrl12,
            State::Port1Ctrl13(_) => Address::Port1Ctrl13,
            State::Port1Status0(_) => Address::Port1Status0,
            State::Port1Status1(_) => Address::Port1Status1,
            State::Port2Ctrl0(_) => Address::Port2Ctrl0,
            State::Port2Ctrl1(_) => Address::Port2Ctrl1,
            State::Port2Ctrl2(_) => Address::Port2Ctrl2,
            State::Port2Ctrl3(_) => Address::Port2Ctrl3,
            State::Port2Ctrl4(_) => Address::Port2Ctrl4,
            State::Port2Ctrl5(_) => Address::Port2Ctrl5,
            State::Port2Q0IngressRateLimit(_) => Address::Port2Q0IngressRateLimit,
            State::Port2Q1IngressRateLimit(_) => Address::Port2Q1IngressRateLimit,
            State::Port2Q2IngressRateLimit(_) => Address::Port2Q2IngressRateLimit,
            State::Port2Q3IngressRateLimit(_) => Address::Port2Q3IngressRateLimit,
            State::Port2PhySpecial(_) => Address::Port2PhySpecial,
            State::Port2LinkMdResult(_) => Address::Port2LinkMdResult,
            State::Port2Ctrl12(_) => Address::Port2Ctrl12,
            State::Port2Ctrl13(_) => Address::Port2Ctrl13,
            State::Port2Status0(_) => Address::Port2Status0,
            State::Port2Status1(_) => Address::Port2Status1,
            State::Port3Ctrl0(_) => Address::Port3Ctrl0,
            State::Port3Ctrl1(_) => Address::Port3Ctrl1,
            State::Port3Ctrl2(_) => Address::Port3Ctrl2,
            State::Port3Ctrl3(_) => Address::Port3Ctrl3,
            State::Port3Ctrl4(_) => Address::Port3Ctrl4,
            State::Port3Ctrl5(_) => Address::Port3Ctrl5,
            State::Port3Q0IngressRateLimit(_) => Address::Port3Q0IngressRateLimit,
            State::Port3Q1IngressRateLimit(_) => Address::Port3Q1IngressRateLimit,
            State::Port3Q2IngressRateLimit(_) => Address::Port3Q2IngressRateLimit,
            State::Port3Q3IngressRateLimit(_) => Address::Port3Q3IngressRateLimit,
            State::Port3Status1(_) => Address::Port3Status1,
            State::Reset(_) => Address::Reset,
            State::TosPriorityCtrl0(_) => Address::TosPriorityCtrl0,
            State::TosPriorityCtrl1(_) => Address::TosPriorityCtrl1,
            State::TosPriorityCtrl2(_) => Address::TosPriorityCtrl2,
            State::TosPriorityCtrl3(_) => Address::TosPriorityCtrl3,
            State::TosPriorityCtrl4(_) => Address::TosPriorityCtrl4,
            State::TosPriorityCtrl5(_) => Address::TosPriorityCtrl5,
            State::TosPriorityCtrl6(_) => Address::TosPriorityCtrl6,
            State::TosPriorityCtrl7(_) => Address::TosPriorityCtrl7,
            State::TosPriorityCtrl8(_) => Address::TosPriorityCtrl8,
            State::TosPriorityCtrl9(_) => Address::TosPriorityCtrl9,
            State::TosPriorityCtrl10(_) => Address::TosPriorityCtrl10,
            State::TosPriorityCtrl11(_) => Address::TosPriorityCtrl11,
            State::TosPriorityCtrl12(_) => Address::TosPriorityCtrl12,
            State::TosPriorityCtrl13(_) => Address::TosPriorityCtrl13,
            State::TosPriorityCtrl14(_) => Address::TosPriorityCtrl14,
            State::TosPriorityCtrl15(_) => Address::TosPriorityCtrl15,
            State::MacAddr0(_) => Address::MacAddr0,
            State::MacAddr1(_) => Address::MacAddr1,
            State::MacAddr2(_) => Address::MacAddr2,
            State::MacAddr3(_) => Address::MacAddr3,
            State::MacAddr4(_) => Address::MacAddr4,
            State::MacAddr5(_) => Address::MacAddr5,
            State::UserDef1(_) => Address::UserDef1,
            State::UserDef2(_) => Address::UserDef2,
            State::UserDef3(_) => Address::UserDef3,
            State::IndirectAccessCtrl0(_) => Address::IndirectAccessCtrl0,
            State::IndirectAccessCtrl1(_) => Address::IndirectAccessCtrl1,
            State::IndirectData8(_) => Address::IndirectData8,
            State::IndirectData7(_) => Address::IndirectData7,
            State::IndirectData6(_) => Address::IndirectData6,
            State::IndirectData5(_) => Address::IndirectData5,
            State::IndirectData4(_) => Address::IndirectData4,
            State::IndirectData3(_) => Address::IndirectData3,
            State::IndirectData2(_) => Address::IndirectData2,
            State::IndirectData1(_) => Address::IndirectData1,
            State::IndirectData0(_) => Address::IndirectData0,
            State::Station1MacAddr0(_) => Address::Station1MacAddr0,
            State::Station1MacAddr1(_) => Address::Station1MacAddr1,
            State::Station1MacAddr2(_) => Address::Station1MacAddr2,
            State::Station1MacAddr3(_) => Address::Station1MacAddr3,
            State::Station1MacAddr4(_) => Address::Station1MacAddr4,
            State::Station1MacAddr5(_) => Address::Station1MacAddr5,
            State::Station2MacAddr0(_) => Address::Station2MacAddr0,
            State::Station2MacAddr1(_) => Address::Station2MacAddr1,
            State::Station2MacAddr2(_) => Address::Station2MacAddr2,
            State::Station2MacAddr3(_) => Address::Station2MacAddr3,
            State::Station2MacAddr4(_) => Address::Station2MacAddr4,
            State::Station2MacAddr5(_) => Address::Station2MacAddr5,
            State::Mode(_) => Address::Mode,
            State::HighPriorityPacketBufferQ3(_) => Address::HighPriorityPacketBufferQ3,
            State::HighPriorityPacketBufferQ2(_) => Address::HighPriorityPacketBufferQ2,
            State::HighPriorityPacketBufferQ1(_) => Address::HighPriorityPacketBufferQ1,
            State::HighPriorityPacketBufferQ0(_) => Address::HighPriorityPacketBufferQ0,
            State::PmUsageFlowCtrlSelectMode1(_) => Address::PmUsageFlowCtrlSelectMode1,
            State::PmUsageFlowCtrlSelectMode2(_) => Address::PmUsageFlowCtrlSelectMode2,
            State::PmUsageFlowCtrlSelectMode3(_) => Address::PmUsageFlowCtrlSelectMode3,
            State::PmUsageFlowCtrlSelectMode4(_) => Address::PmUsageFlowCtrlSelectMode4,
            State::Port1TxqSplitForQ3(_) => Address::Port1TxqSplitForQ3,
            State::Port1TxqSplitForQ2(_) => Address::Port1TxqSplitForQ2,
            State::Port1TxqSplitForQ1(_) => Address::Port1TxqSplitForQ1,
            State::Port1TxqSplitForQ0(_) => Address::Port1TxqSplitForQ0,
            State::Port2TxqSplitForQ3(_) => Address::Port2TxqSplitForQ3,
            State::Port2TxqSplitForQ2(_) => Address::Port2TxqSplitForQ2,
            State::Port2TxqSplitForQ1(_) => Address::Port2TxqSplitForQ1,
            State::Port2TxqSplitForQ0(_) => Address::Port2TxqSplitForQ0,
            State::Port3TxqSplitForQ3(_) => Address::Port3TxqSplitForQ3,
            State::Port3TxqSplitForQ2(_) => Address::Port3TxqSplitForQ2,
            State::Port3TxqSplitForQ1(_) => Address::Port3TxqSplitForQ1,
            State::Port3TxqSplitForQ0(_) => Address::Port3TxqSplitForQ0,
            State::InterruptEnable(_) => Address::InterruptEnable,
            State::LinkChangeInterrupt(_) => Address::LinkChangeInterrupt,
            State::ForcePauseOff(_) => Address::ForcePauseOff,
            State::FiberSignalThreshold(_) => Address::FiberSignalThreshold,
            State::InternalLdoCtrl(_) => Address::InternalLdoCtrl,
            State::InsertSrcPvid(_) => Address::InsertSrcPvid,
            State::PwrMgmtAndLedMode(_) => Address::PwrMgmtAndLedMode,
            State::SleepMode(_) => Address::SleepMode,
            State::FwdInvalidVidFrameAndHostMode(_) => Address::FwdInvalidVidFrameAndHostMode,
        }
    }

    /// The raw word of the register held.
    pub fn bits(&self) -> (b: u8)
        ensures
            b == self.spec_bits(),
    {
        match self {
            State::ChipId0(r) => r.bits,
            State::ChipId1(r) => r.bits,
            State::Gc0(r) => r.bits,
            State::Gc1(r) => r.bits,
            State::Gc2(r) => r.bits,
            State::Gc3(r) => r.bits,
            State::Gc4(r) => r.bits,
            State::Gc5(r) => r.bits,
            State::Gc9(r) => r.bits,
            State::Gc10(r) => r.bits,
            State::Gc11(r) => r.bits,
            State::Gc12(r) => r.bits,
            State::Gc13(r) => r.bits,
            State::Port1Ctrl0(r) => r.bits,
            State::Port1Ctrl1(r) => r.bits,
            State::Port1Ctrl2(r) => r.bits,
            State::Port1Ctrl3(r) => r.bits,
            State::Port1Ctrl4(r) => r.bits,
            State::Port1Ctrl5(r) => r.bits,
            State::Port1Q0IngressRateLimit(r) => r.bits,
            State::Port1Q1IngressRateLimit(r) => r.bits,
            State::Port1Q2IngressRateLimit(r) => r.bits,
            State::Port1Q3IngressRateLimit(r) => r.bits,
            State::Port1PhySpecial(r) => r.bits,
            State::Port1LinkMdResult(r) => r.bits,
            State::Port1Ctrl12(r) => r.bits,
            State::Port1Ctrl13(r) => r.bits,
            State::Port1Status0(r) => r.bits,
            State::Port1Status1(r) => r.bits,
            State::Port2Ctrl0(r) => r.bits,
            State::Port2Ctrl1(r) => r.bits,
            State::Port2Ctrl2(r) => r.bits,
            State::Port2Ctrl3(r) => r.bits,
            State::Port2Ctrl4(r) => r.bits,
            State::Port2Ctrl5(r) => r.bits,
            State::Port2Q0IngressRateLimit(r) => r.bits,
            State::Port2Q1IngressRateLimit(r) => r.bits,
            State::Port2Q2IngressRateLimit(r) => r.bits,
            State::Port2Q3IngressRateLimit(r) => r.bits,
            State::Port2PhySpecial(r) => r.bits,
            State::Port2LinkMdResult(r) => r.bits,
            State::Port2Ctrl12(r) => r.bits,
            State::Port2Ctrl13(r) => r.bits,
            State::Port2Status0(r) => r.bits,
            State::Port2Status1(r) => r.bits,
            State::Port3Ctrl0(r) => r.bits,
            State::Port3Ctrl1(r) => r.bits,
            State::Port3Ctrl2(r) => r.bits,
            State::Port3Ctrl3(r) => r.bits,
            State::Port3Ctrl4(r) => r.bits,
            State::Port3Ctrl5(r) => r.bits,
            State::Port3Q0IngressRateLimit(r) => r.bits,
            State::Port3Q1IngressRateLimit(r) => r.bits,
            State::Port3Q2IngressRateLimit(r) => r.bits,
            State::Port3Q3IngressRateLimit(r) => r.bits,
            State::Port3Status1(r) => r.bits,
            State::Reset(r) => r.bits,
            State::TosPriorityCtrl0(r) => r.bits,
            State::TosPriorityCtrl1(r) => r.bits,
            State::TosPriorityCtrl2(r) => r.bits,
            State::TosPriorityCtrl3(r) => r.bits,
            State::TosPriorityCtrl4(r) => r.bits,
            State::TosPriorityCtrl5(r) => r.bits,
            State::TosPriorityCtrl6(r) => r.bits,
            State::TosPriorityCtrl7(r) => r.bits,
            State::TosPriorityCtrl8(r) => r.bits,
            State::TosPriorityCtrl9(r) => r.bits,
            State::TosPriorityCtrl10(r) => r.bits,
            State::TosPriorityCtrl11(r) => r.bits,
            State::TosPriorityCtrl12(r) => r.bits,
            State::TosPriorityCtrl13(r) => r.bits,
            State::TosPriorityCtrl14(r) => r.bits,
            State::TosPriorityCtrl15(r) => r.bits,
            State::MacAddr0(r) => r.bits,
            State::MacAddr1(r) => r.bits,
            State::MacAddr2(r) => r.bits,
            State::MacAddr3(r) => r.bits,
            State::MacAddr4(r) => r.bits,
            State::MacAddr5(r) => r.bits,
            State::UserDef1(r) => r.bits,
            State::UserDef2(r) => r.bits,
            State::UserDef3(r) => r.bits,
            State::IndirectAccessCtrl0(r) => r.bits,
            State::IndirectAccessCtrl1(r) => r.bits,
            State::IndirectData8(r) => r.bits,
            State::IndirectData7(r) => r.bits,
            State::IndirectData6(r) => r.bits,
            State::IndirectData5(r) => r.bits,
            State::IndirectData4(r) => r.bits,
            State::IndirectData3(r) => r.bits,
            State::IndirectData2(r) => r.bits,
            State::IndirectData1(r) => r.bits,
            State::IndirectData0(r) => r.bits,
            State::Station1MacAddr0(r) => r.bits,
            State::Station1MacAddr1(r) => r.bits,
            State::Station1MacAddr2(r) => r.bits,
            State::Station1MacAddr3(r) => r.bits,
            State::Station1MacAddr4(r) => r.bits,
            State::Station1MacAddr5(r) => r.bits,
            State::Station2MacAddr0(r) => r.bits,
            State::Station2MacAddr1(r) => r.bits,
            State::Station2MacAddr2(r) => r.bits,
            State::Station2MacAddr3(r) => r.bits,
            State::Station2MacAddr4(r) => r.bits,
            State::Station2MacAddr5(r) => r.bits,
            State::Mode(r) => r.bits,
            State::HighPriorityPacketBufferQ3(r) => r.bits,
            State::HighPriorityPacketBufferQ2(r) => r.bits,
            State::HighPriorityPacketBufferQ1(r) => r.bits,
            State::HighPriorityPacketBufferQ0(r) => r.bits,
            State::PmUsageFlowCtrlSelectMode1(r) => r.bits,
            State::PmUsageFlowCtrlSelectMode2(r) => r.bits,
            State::PmUsageFlowCtrlSelectMode3(r) => r.bits,
            State::PmUsageFlowCtrlSelectMode4(r) => r.bits,
            State::Port1TxqSplitForQ3(r) => r.bits,
            State::Port1TxqSplitForQ2(r) => r.bits,
            State::Port1TxqSplitForQ1(r) => r.bits,
            State::Port1TxqSplitForQ0(r) => r.bits,
            State::Port2TxqSplitForQ3(r) => r.bits,
            State::Port2TxqSplitForQ2(r) => r.bits,
            State::Port2TxqSplitForQ1(r) => r.bits,
            State::Port2TxqSplitForQ0(r) => r.bits,
            State::Port3TxqSplitForQ3(r) => r.bits,
            State::Port3TxqSplitForQ2(r) => r.bits,
            State::Port3TxqSplitForQ1(r) => r.bits,
            State::Port3TxqSplitForQ0(r) => r.bits,
            State::InterruptEnable(r) => r.bits,
            State::LinkChangeInterrupt(r) => r.bits,
            State::ForcePauseOff(r) => r.bits,
            State::FiberSignalThreshold(r) => r.bits,
            State::InternalLdoCtrl(r) => r.bits,
            State::InsertSrcPvid(r) => r.bits,
            State::PwrMgmtAndLedMode(r) => r.bits,
            State::SleepMode(r) => r.bits,
            State::FwdInvalidVidFrameAndHostMode(r) => r.bits,
        }
    }
}

/// The `ChipId0` register, at address `0x00`.
#[derive(Clone, Copy, Debug, PartialEq, Eq, Structural, Hash)]
pub struct ChipId0 {
    bits: u8,
}

impl View for ChipId0 {
    type V = u8;

    closed spec fn view(&self) -> u8 {
        self.bits
    }
}

impl Register for ChipId0 {
    open spec fn spec_address() -> Address {
        Address::ChipId0
    }

    closed spec fn spec_from_bits(bits: u8) -> ChipId0 {
        ChipId0 { bits }
    }

    proof fn lemma_from_bits(bits: u8) {
    }

    fn address() -> (a: Address) {
        Address::ChipId0
    }

    fn from_bits(bits: u8) -> (r: ChipId0) {
        ChipId0 { bits }
    }

    fn to_bits(&self) -> (b: u8) {
        self.bits
    }
}

impl Default for ChipId0 {
    fn default() -> (r: ChipId0)
        ensures
            r@ == default_bits(Address::ChipId0),
    {
        ChipId0 { bits: 0x88 }
    }
}

impl From<u8> for ChipId0 {
    fn from(bits: u8) -> (r: ChipId0) {
        ChipId0 { bits }
    }
}

impl vstd::std_specs::convert::FromSpecImpl<u8> for ChipId0 {
    open spec fn obeys_from_spec() -> bool {
        true
    }

    open spec fn from_spec(bits: u8) -> ChipId0 {
        <ChipId0 as Register>::spec_from_bits(bits)
    }
}

impl From<ChipId0> for u8 {
    fn from(r: ChipId0) -> (bits: u8) {
        r.bits
    }
}

impl vstd::std_specs::convert::FromSpecImpl<ChipId0> for u8 {
    open spec fn obeys_from_spec() -> bool {
        true
    }

    open spec fn from_spec(r: ChipId0) -> u8 {
        r@
    }
}

impl From<ChipId0> for State {
    fn from(r: ChipId0) -> (s: State) {
        State::ChipId0(r)
    }
}

impl vstd::std_specs::convert::FromSpecImpl<ChipId0> for State {
    open spec fn obeys_from_spec() -> bool {
        true
    }

    open spec fn from_spec(r: ChipId0) -> State {
        State::ChipId0(r)
    }
}

impl core::convert::TryFrom<State> for ChipId0 {
    type Error = InvalidAddress;

    fn try_from(s: State) -> (r: Result<ChipId0, InvalidAddress>) {
        match s {
            State::ChipId0(r) => Ok(r),
            _ => Err(InvalidAddress),
        }
    }
}

impl vstd::std_specs::convert::TryFromSpecImpl<State> for ChipId0 {
    open spec fn obeys_try_from_spec() -> bool {
        true
    }

    open spec fn try_from_spec(s: State) -> Result<ChipId0, InvalidAddress> {
        match s {
            State::ChipId0(r) => Ok(r),
            _ => Err(InvalidAddress),
        }
    }
}

impl ChipId0 {
    /// Provides read access to the individual fields of the register.
    pub fn read(&self) -> (r: R<ChipId0>)
        ensures
            r.0 == *self,
    {
        R(*self)
    }

    /// Provides write access to the individual fields of the register.
    pub fn write(self) -> (w: W<ChipId0>)
        ensures
            w.0 == self,
    {
        W(self)
    }
}

impl R<ChipId0> {
    /// Read access to the `family_id` field.
    pub fn family_id(&self) -> (f: BitsR<u8>)
        ensures
            f.bits == load8(self.0@, 0xff, 0),
    {
        BitsR { bits: (self.0.bits & 0xff) >> 0u8 }
    }
}

/// The `ChipId1` register, at address `0x01`.
#[derive(Clone, Copy, Debug, PartialEq, Eq, Structural, Hash)]
pub struct ChipId1 {
    bits: u8,
}

impl View for ChipId1 {
    type V = u8;

    closed spec fn view(&self) -> u8 {
        self.bits
    }
}

impl Register for ChipId1 {
    open spec fn spec_address() -> Address {
        Address::ChipId1
    }

    closed spec fn spec_from_bits(bits: u8) -> ChipId1 {
        ChipId1 { bits }
    }

    proof fn lemma_from_bits(bits: u8) {
    }

    fn address() -> (a: Address) {
        Address::ChipId1
    }

    fn from_bits(bits: u8) -> (r: ChipId1) {
        ChipId1 { bits }
    }

    fn to_bits(&self) -> (b: u8) {
        self.bits
    }
}

impl Default for ChipId1 {
    fn default() -> (r: ChipId1)
        ensures
            r@ == default_bits(Address::ChipId1),
    {
        ChipId1 { bits: 0x31 }
    }
}

impl From<u8> for ChipId1 {
    fn from(bits: u8) -> (r: ChipId1) {
        ChipId1 { bits }
    }
}

impl vstd::std_specs::convert::FromSpecImpl<u8> for ChipId1 {
    open spec fn obeys_from_spec() -> bool {
        true
    }

    open spec fn from_spec(bits: u8) -> ChipId1 {
        <ChipId1 as Register>::spec_from_bits(bits)
    }
}

impl From<ChipId1> for u8 {
    fn from(r: ChipId1) -> (bits: u8) {
        r.bits
    }
}

impl vstd::std_specs::convert::FromSpecImpl<ChipId1> for u8 {
    open spec fn obeys_from_spec() -> bool {
        true
    }

    open spec fn from_spec(r: ChipId1) -> u8 {
        r@
    }
}

impl From<ChipId1> for State {
    fn from(r: ChipId1) -> (s: State) {
        State::ChipId1(r)
    }
}

impl vstd::std_specs::convert::FromSpecImpl<ChipId1> for State {
    open spec fn obeys_from_spec() -> bool {
        true
    }

    open spec fn from_spec(r: ChipId1) -> State {
        State::ChipId1(r)
    }
}

impl core::convert::TryFrom<State> for ChipId1 {
    type Error = InvalidAddress;

    fn try_from(s: State) -> (r: Result<ChipId1, InvalidAddress>) {
        match s {
            State::ChipId1(r) => Ok(r),
            _ => Err(InvalidAddress),
        }
    }
}

impl vstd::std_specs::convert::TryFromSpecImpl<State> for ChipId1 {
    open spec fn obeys_try_from_spec() -> bool {
        true
    }

    open spec fn try_from_spec(s: State) -> Result<ChipId1, InvalidAddress> {
        match s {
            State::ChipId1(r) => Ok(r),
            _ => Err(InvalidAddress),
        }
    }
}

impl ChipId1 {
    /// Provides read access to the individual fields of the register.
    pub fn read(&self) -> (r: R<ChipId1>)
        ensures
            r.0 == *self,
    {
        R(*self)
    }

    /// Provides write access to the individual fields of the register.
    pub fn write(self) -> (w: W<ChipId1>)
        ensures
            w.0 == self,
    {
        W(self)
    }
}

impl R<ChipId1> {
    /// Read access to the `chip_id` field.
    pub fn chip_id(&self) -> (f: BitsR<u8>)
        ensures
            f.bits == load8(self.0@, 0xf0, 4),
    {
        BitsR { bits: (self.0.bits & 0xf0) >> 4u8 }
    }

    /// Read access to the `revision_id` field.
    pub fn revision_id(&self) -> (f: BitsR<u8>)
        ensures
            f.bits == load8(self.0@, 0x0e, 1),
    {
        BitsR { bits: (self.0.bits & 0x0e) >> 1u8 }
    }

    /// Read access to the `start_switch` field.
    pub fn start_switch(&self) -> (f: BitR)
        ensures
            f.bit == (self.0@ & 0x01 != 0),
    {
        BitR { bit: self.0.bits & 0x01 != 0 }
    }
}

impl W<ChipId1> {
    /// Write access to the `start_switch` field.
    pub fn start_switch(self) -> (f: BitW<ChipId1>)
        ensures
            f.w == self,
            f.mask == 0x01,
    {
        BitW { w: self, mask: 0x01 }
    }
}

/// The `Gc0` register, at address `0x02`.
#[derive(Clone, Copy, Debug, PartialEq, Eq, Structural, Hash)]
pub struct Gc0 {
    bits: u8,
}

impl View for Gc0 {
    type V = u8;

    closed spec fn view(&self) -> u8 {
        self.bits
    }
}

impl Register for Gc0 {
    open spec fn spec_address() -> Address {
        Address::Gc0
    }

    closed spec fn spec_from_bits(bits: u8) -> Gc0 {
        Gc0 { bits }
    }

    proof fn lemma_from_bits(bits: u8) {
    }

    fn address() -> (a: Address) {
        Address::Gc0
    }

    fn from_bits(bits: u8) -> (r: Gc0) {
        Gc0 { bits }
    }

    fn to_bits(&self) -> (b: u8) {
        self.bits
    }
}

impl Default for Gc0 {
    fn default() -> (r: Gc0)
        ensures
            r@ == default_bits(Address::Gc0),
    {
        Gc0 { bits: 0x00 }
    }
}

impl From<u8> for Gc0 {
    fn from(bits: u8) -> (r: Gc0) {
        Gc0 { bits }
    }
}

impl vstd::std_specs::convert::FromSpecImpl<u8> for Gc0 {
    open spec fn obeys_from_spec() -> bool {
        true
    }

    open spec fn from_spec(bits: u8) -> Gc0 {
        <Gc0 as Register>::spec_from_bits(bits)
    }
}

impl From<Gc0> for u8 {
    fn from(r: Gc0) -> (bits: u8) {
        r.bits
    }
}

impl vstd::std_specs::convert::FromSpecImpl<Gc0> for u8 {
    open spec fn obeys_from_spec() -> bool {
        true
    }

    open spec fn from_spec(r: Gc0) -> u8 {
        r@
    }
}

impl From<Gc0> for State {
    fn from(r: Gc0) -> (s: State) {
        State::Gc0(r)
    }
}

impl vstd::std_specs::convert::FromSpecImpl<Gc0> for State {
    open spec fn obeys_from_spec() -> bool {
        true
    }

    open spec fn from_spec(r: Gc0) -> State {
        State::Gc0(r)
    }
}

impl core::convert::TryFrom<State> for Gc0 {
    type Error = InvalidAddress;

    fn try_from(s: State) -> (r: Result<Gc0, InvalidAddress>) {
        match s {
            State::Gc0(r) => Ok(r),
            _ => Err(InvalidAddress),
        }
    }
}

impl vstd::std_specs::convert::TryFromSpecImpl<State> for Gc0 {
    open spec fn obeys_try_from_spec() -> bool {
        true
    }

    open spec fn try_from_spec(s: State) -> Result<Gc0, InvalidAddress> {
        match s {
            State::Gc0(r) => Ok(r),
            _ => Err(InvalidAddress),
        }
    }
}

impl Gc0 {
    /// Provides read access to the individual fields of the register.
    pub fn read(&self) -> (r: R<Gc0>)
        ensures
            r.0 == *self,
    {
        R(*self)
    }

    /// Provides write access to the individual fields of the register.
    pub fn write(self) -> (w: W<Gc0>)
        ensures
            w.0 == self,
    {
        W(self)
    }
}

impl R<Gc0> {
    /// Read access to the `new_back_off` field.
    pub fn new_back_off(&self) -> (f: BitR)
        ensures
            f.bit == (self.0@ & 0x80 != 0),
    {
        BitR { bit: self.0.bits & 0x80 != 0 }
    }

    /// Read access to the `flush_dynamic_mac_table` field.
    pub fn flush_dynamic_mac_table(&self) -> (f: BitR)
        ensures
            f.bit == (self.0@ & 0x20 != 0),
    {
        BitR { bit: self.0.bits & 0x20 != 0 }
    }

    /// Read access to the `flush_static_mac_table` field.
    pub fn flush_static_mac_table(&self) -> (f: BitR)
        ensures
            f.bit == (self.0@ & 0x10 != 0),
    {
        BitR { bit: self.0.bits & 0x10 != 0 }
    }

    /// Read access to the `pass_flow_control_packet` field.
    pub fn pass_flow_control_packet(&self) -> (f: BitR)
        ensures
            f.bit == (self.0@ & 0x08 != 0),
    {
        BitR { bit: self.0.bits & 0x08 != 0 }
    }
}

impl W<Gc0> {
    /// Write access to the `new_back_off` field.
    pub fn new_back_off(self) -> (f: BitW<Gc0>)
        ensures
            f.w == self,
            f.mask == 0x80,
    {
        BitW { w: self, mask: 0x80 }
    }

    /// Write access to the `flush_dynamic_mac_table` field.
    pub fn flush_dynamic_mac_table(self) -> (f: BitW<Gc0>)
        ensures
            f.w == self,
            f.mask == 0x20,
    {
        BitW { w: self, mask: 0x20 }
    }

    /// Write access to the `flush_static_mac_table` field.
    pub fn flush_static_mac_table(self) -> (f: BitW<Gc0>)
        ensures
            f.w == self,
            f.mask == 0x10,
    {
        BitW { w: self, mask: 0x10 }
    }

    /// Write access to the `pass_flow_control_packet` field.
    pub fn pass_flow_control_packet(self) -> (f: BitW<Gc0>)
        ensures
            f.w == self,
            f.mask == 0x08,
    {
        BitW { w: self, mask: 0x08 }
    }
}

/// The `Gc1` register, at address `0x03`.
#[derive(Clone, Copy, Debug, PartialEq, Eq, Structural, Hash)]
pub struct Gc1 {
    bits: u8,
}

impl View for Gc1 {
    type V = u8;

    closed spec fn view(&self) -> u8 {
        self.bits
    }
}

impl Register for Gc1 {
    open spec fn spec_address() -> Address {
        Address::Gc1
    }

    closed spec fn spec_from_bits(bits: u8) -> Gc1 {
        Gc1 { bits }
    }

    proof fn lemma_from_bits(bits: u8) {
    }

    fn address() -> (a: Address) {
        Address::Gc1
    }

    fn from_bits(bits: u8) -> (r: Gc1) {
        Gc1 { bits }
    }

    fn to_bits(&self) -> (b: u8) {
        self.bits
    }
}

impl Default for Gc1 {
    fn default() -> (r: Gc1)
        ensures
            r@ == default_bits(Address::Gc1),
    {
        Gc1 { bits: 0x34 }
    }
}

impl From<u8> for Gc1 {
    fn from(bits: u8) -> (r: Gc1) {
        Gc1 { bits }
    }
}

impl vstd::std_specs::convert::FromSpecImpl<u8> for Gc1 {
    open spec fn obeys_from_spec() -> bool {
        true
    }

    open spec fn from_spec(bits: u8) -> Gc1 {
        <Gc1 as Register>::spec_from_bits(bits)
    }
}

impl From<Gc1> for u8 {
    fn from(r: Gc1) -> (bits: u8) {
        r.bits
    }
}

impl vstd::std_specs::convert::FromSpecImpl<Gc1> for u8 {
    open spec fn obeys_from_spec() -> bool {
        true
    }

    open spec fn from_spec(r: Gc1) -> u8 {
        r@
    }
}

impl From<Gc1> for State {
    fn from(r: Gc1) -> (s: State) {
        State::Gc1(r)
    }
}

impl vstd::std_specs::convert::FromSpecImpl<Gc1> for State {
    open spec fn obeys_from_spec() -> bool {
        true
    }

    open spec fn from_spec(r: Gc1) -> State {
        State::Gc1(r)
    }
}

impl core::convert::TryFrom<State> for Gc1 {
    type Error = InvalidAddress;

    fn try_from(s: State) -> (r: Result<Gc1, InvalidAddress>) {
        match s {
            State::Gc1(r) => Ok(r),
            _ => Err(InvalidAddress),
        }
    }
}

impl vstd::std_specs::convert::TryFromSpecImpl<State> for Gc1 {
    open spec fn obeys_try_from_spec() -> bool {
        true
    }

    open spec fn try_from_spec(s: State) -> Result<Gc1, InvalidAddress> {
        match s {
            State::Gc1(r) => Ok(r),
            _ => Err(InvalidAddress),
        }
    }
}

impl Gc1 {
    /// Provides read access to the individual fields of the register.
    pub fn read(&self) -> (r: R<Gc1>)
        ensures
            r.0 == *self,
    {
        R(*self)
    }

    /// Provides write access to the individual fields of the register.
    pub fn write(self) -> (w: W<Gc1>)
        ensures
            w.0 == self,
    {
        W(self)
    }
}

impl R<Gc1> {
    /// Read access to the `pass_all_frames` field.
    pub fn pass_all_frames(&self) -> (f: BitR)
        ensures
            f.bit == (self.0@ & 0x80 != 0),
    {
        BitR { bit: self.0.bits & 0x80 != 0 }
    }

    /// Read access to the `port3_tail_tag` field.
    pub fn port3_tail_tag(&self) -> (f: BitR)
        ensures
            f.bit == (self.0@ & 0x40 != 0),
    {
        BitR { bit: self.0.bits & 0x40 != 0 }
    }

    /// Read access to the `tx_flow_control` field.
    pub fn tx_flow_control(&self) -> (f: BitR)
        ensures
            f.bit == (self.0@ & 0x20 != 0),
    {
        BitR { bit: self.0.bits & 0x20 != 0 }
    }

    /// Read access to the `rx_flow_control` field.
    pub fn rx_flow_control(&self) -> (f: BitR)
        ensures
            f.bit == (self.0@ & 0x10 != 0),
    {
        BitR { bit: self.0.bits & 0x10 != 0 }
    }

    /// Read access to the `frame_length_field_check` field.
    pub fn frame_length_field_check(&self) -> (f: BitR)
        ensures
            f.bit == (self.0@ & 0x08 != 0),
    {
        BitR { bit: self.0.bits & 0x08 != 0 }
    }

    /// Read access to the `aging` field.
    pub fn aging(&self) -> (f: BitR)
        ensures
            f.bit == (self.0@ & 0x04 != 0),
    {
        BitR { bit: self.0.bits & 0x04 != 0 }
    }

    /// Read access to the `fast_age` field.
    pub fn fast_age(&self) -> (f: BitR)
        ensures
            f.bit == (self.0@ & 0x02 != 0),
    {
        BitR { bit: self.0.bits & 0x02 != 0 }
    }

    /// Read access to the `aggressive_back_off` field.
    pub fn aggressive_back_off(&self) -> (f: BitR)
        ensures
            f.bit == (self.0@ & 0x01 != 0),
    {
        BitR { bit: self.0.bits & 0x01 != 0 }
    }
}

impl W<Gc1> {
    /// Write access to the `pass_all_frames` field.
    pub fn pass_all_frames(self) -> (f: BitW<Gc1>)
        ensures
            f.w == self,
            f.mask == 0x80,
    {
        BitW { w: self, mask: 0x80 }
    }

    /// Write access to the `port3_tail_tag` field.
    pub fn port3_tail_tag(self) -> (f: BitW<Gc1>)
        ensures
            f.w == self,
            f.mask == 0x40,
    {
        BitW { w: self, mask: 0x40 }
    }

    /// Write access to the `tx_flow_control` field.
    pub fn tx_flow_control(self) -> (f: BitW<Gc1>)
        ensures
            f.w == self,
            f.mask == 0x20,
    {
        BitW { w: self, mask: 0x20 }
    }

    /// Write access to the `rx_flow_control` field.
    pub fn rx_flow_control(self) -> (f: BitW<Gc1>)
        ensures
            f.w == self,
            f.mask == 0x10,
    {
        BitW { w: self, mask: 0x10 }
    }

    /// Write access to the `frame_length_field_check` field.
    pub fn frame_length_field_check(self) -> (f: BitW<Gc1>)
        ensures
            f.w == self,
            f.mask == 0x08,
    {
        BitW { w: self, mask: 0x08 }
    }

    /// Write access to the `aging` field.
    pub fn aging(self) -> (f: BitW<Gc1>)
        ensures
            f.w == self,
            f.mask == 0x04,
    {
        BitW { w: self, mask: 0x04 }
    }

    /// Write access to the `fast_age` field.
    pub fn fast_age(self) -> (f: BitW<Gc1>)
        ensures
            f.w == self,
            f.mask == 0x02,
    {
        BitW { w: self, mask: 0x02 }
    }

    /// Write access to the `aggressive_back_off` field.
    pub fn aggressive_back_off(self) -> (f: BitW<Gc1>)
        ensures
            f.w == self,
            f.mask == 0x01,
    {
        BitW { w: self, mask: 0x01 }
    }
}

/// The `Gc2` register, at address `0x04`.
#[derive(Clone, Copy, Debug, PartialEq, Eq, Structural, Hash)]
pub struct Gc2 {
    bits: u8,
}

impl View for Gc2 {
    type V = u8;

    closed spec fn view(&self) -> u8 {
        self.bits
    }
}

impl Register for Gc2 {
    open spec fn spec_address() -> Address {
        Address::Gc2
    }

    closed spec fn spec_from_bits(bits: u8) -> Gc2 {
        Gc2 { bits }
    }

    proof fn lemma_from_bits(bits: u8) {
    }

    fn address() -> (a: Address) {
        Address::Gc2
    }

    fn from_bits(bits: u8) -> (r: Gc2) {
        Gc2 { bits }
    }

    fn to_bits(&self) -> (b: u8) {
        self.bits
    }
}

impl Default for Gc2 {
    fn default() -> (r: Gc2)
        ensures
            r@ == default_bits(Address::Gc2),
    {
        Gc2 { bits: 0xf0 }
    }
}

impl From<u8> for Gc2 {
    fn from(bits: u8) -> (r: Gc2) {
        Gc2 { bits }
    }
}

impl vstd::std_specs::convert::FromSpecImpl<u8> for Gc2 {
    open spec fn obeys_from_spec() -> bool {
        true
    }

    open spec fn from_spec(bits: u8) -> Gc2 {
        <Gc2 as Register>::spec_from_bits(bits)
    }
}

impl From<Gc2> for u8 {
    fn from(r: Gc2) -> (bits: u8) {
        r.bits
    }
}

impl vstd::std_specs::convert::FromSpecImpl<Gc2> for u8 {
    open spec fn obeys_from_spec() -> bool {
        true
    }

    open spec fn from_spec(r: Gc2) -> u8 {
        r@
    }
}

impl From<Gc2> for State {
    fn from(r: Gc2) -> (s: State) {
        State::Gc2(r)
    }
}

impl vstd::std_specs::convert::FromSpecImpl<Gc2> for State {
    open spec fn obeys_from_spec() -> bool {
        true
    }

    open spec fn from_spec(r: Gc2) -> State {
        State::Gc2(r)
    }
}

impl core::convert::TryFrom<State> for Gc2 {
    type Error = InvalidAddress;

    fn try_from(s: State) -> (r: Result<Gc2, InvalidAddress>) {
        match s {
            State::Gc2(r) => Ok(r),
            _ => Err(InvalidAddress),
        }
    }
}

impl vstd::std_specs::convert::TryFromSpecImpl<State> for Gc2 {
    open spec fn obeys_try_from_spec() -> bool {
        true
    }

    open spec fn try_from_spec(s: State) -> Result<Gc2, InvalidAddress> {
        match s {
            State::Gc2(r) => Ok(r),
            _ => Err(InvalidAddress),
        }
    }
}

impl Gc2 {
    /// Provides read access to the individual fields of the register.
    pub fn read(&self) -> (r: R<Gc2>)
        ensures
            r.0 == *self,
    {
        R(*self)
    }

    /// Provides write access to the individual fields of the register.
    pub fn write(self) -> (w: W<Gc2>)
        ensures
            w.0 == self,
    {
        W(self)
    }
}

impl R<Gc2> {
    /// Read access to the `unicast_port_vlan_mismatch_discard` field.
    pub fn unicast_port_vlan_mismatch_discard(&self) -> (f: BitR)
        ensures
            f.bit == (self.0@ & 0x80 != 0),
    {
        BitR { bit: self.0.bits & 0x80 != 0 }
    }

    /// Read access to the `multicast_storm_protection_disable` field.
    pub fn multicast_storm_protection_disable(&self) -> (f: BitR)
        ensures
            f.bit == (self.0@ & 0x40 != 0),
    {
        BitR { bit: self.0.bits & 0x40 != 0 }
    }

    /// Read access to the `back_pressure_mode` field.
    pub fn back_pressure_mode(&self) -> (f: BitR)
        ensures
            f.bit == (self.0@ & 0x20 != 0),
    {
        BitR { bit: self.0.bits & 0x20 != 0 }
    }

    /// Read access to the `fc_bp_fair_mode` field.
    pub fn fc_bp_fair_mode(&self) -> (f: BitR)
        ensures
            f.bit == (self.0@ & 0x10 != 0),
    {
        BitR { bit: self.0.bits & 0x10 != 0 }
    }

    /// Read access to the `no_excessive_collision_drop` field.
    pub fn no_excessive_collision_drop(&self) -> (f: BitR)
        ensures
            f.bit == (self.0@ & 0x08 != 0),
    {
        BitR { bit: self.0.bits & 0x08 != 0 }
    }

    /// Read access to the `huge_packet_support` field.
    pub fn huge_packet_support(&self) -> (f: BitR)
        ensures
            f.bit == (self.0@ & 0x04 != 0),
    {
        BitR { bit: self.0.bits & 0x04 != 0 }
    }

    /// Read access to the `legal_max_packet_size_check` field.
    pub fn legal_max_packet_size_check(&self) -> (f: BitR)
        ensures
            f.bit == (self.0@ & 0x02 != 0),
    {
        BitR { bit: self.0.bits & 0x02 != 0 }
    }
}

impl W<Gc2> {
    /// Write access to the `unicast_port_vlan_mismatch_discard` field.
    pub fn unicast_port_vlan_mismatch_discard(self) -> (f: BitW<Gc2>)
        ensures
            f.w == self,
            f.mask == 0x80,
    {
        BitW { w: self, mask: 0x80 }
    }

    /// Write access to the `multicast_storm_protection_disable` field.
    pub fn multicast_storm_protection_disable(self) -> (f: BitW<Gc2>)
        ensures
            f.w == self,
            f.mask == 0x40,
    {
        BitW { w: self, mask: 0x40 }
    }

    /// Write access to the `back_pressure_mode` field.
    pub fn back_pressure_mode(self) -> (f: BitW<Gc2>)
        ensures
            f.w == self,
            f.mask == 0x20,
    {
        BitW { w: self, mask: 0x20 }
    }

    /// Write access to the `fc_bp_fair_mode` field.
    pub fn fc_bp_fair_mode(self) -> (f: BitW<Gc2>)
        ensures
            f.w == self,
            f.mask == 0x10,
    {
        BitW { w: self, mask: 0x10 }
    }

    /// Write access to the `no_excessive_collision_drop` field.
    pub fn no_excessive_collision_drop(self) -> (f: BitW<Gc2>)
        ensures
            f.w == self,
            f.mask == 0x08,
    {
        BitW { w: self, mask: 0x08 }
    }

    /// Write access to the `huge_packet_support` field.
    pub fn huge_packet_support(self) -> (f: BitW<Gc2>)
        ensures
            f.w == self,
            f.mask == 0x04,
    {
        BitW { w: self, mask: 0x04 }
    }

    /// Write access to the `legal_max_packet_size_check` field.
    pub fn legal_max_packet_size_check(self) -> (f: BitW<Gc2>)
        ensures
            f.w == self,
            f.mask == 0x02,
    {
        BitW { w: self, mask: 0x02 }
    }
}

/// The `Gc3` register, at address `0x05`.
#[derive(Clone, Copy, Debug, PartialEq, Eq, Structural, Hash)]
pub struct Gc3 {
    bits: u8,
}

impl View for Gc3 {
    type V = u8;

    closed spec fn view(&self) -> u8 {
        self.bits
    }
}

impl Register for Gc3 {
    open spec fn spec_address() -> Address {
        Address::Gc3
    }

    closed spec fn spec_from_bits(bits: u8) -> Gc3 {
        Gc3 { bits }
    }

    proof fn lemma_from_bits(bits: u8) {
    }

    fn address() -> (a: Address) {
        Address::Gc3
    }

    fn from_bits(bits: u8) -> (r: Gc3) {
        Gc3 { bits }
    }

    fn to_bits(&self) -> (b: u8) {
        self.bits
    }
}

impl Default for Gc3 {
    fn default() -> (r: Gc3)
        ensures
            r@ == default_bits(Address::Gc3),
    {
        Gc3 { bits: 0x00 }
    }
}

impl From<u8> for Gc3 {
    fn from(bits: u8) -> (r: Gc3) {
        Gc3 { bits }
    }
}

impl vstd::std_specs::convert::FromSpecImpl<u8> for Gc3 {
    open spec fn obeys_from_spec() -> bool {
        true
    }

    open spec fn from_spec(bits: u8) -> Gc3 {
        <Gc3 as Register>::spec_from_bits(bits)
    }
}

impl From<Gc3> for u8 {
    fn from(r: Gc3) -> (bits: u8) {
        r.bits
    }
}

impl vstd::std_specs::convert::FromSpecImpl<Gc3> for u8 {
    open spec fn obeys_from_spec() -> bool {
        true
    }

    open spec fn from_spec(r: Gc3) -> u8 {
        r@
    }
}

impl From<Gc3> for State {
    fn from(r: Gc3) -> (s: State) {
        State::Gc3(r)
    }
}

impl vstd::std_specs::convert::FromSpecImpl<Gc3> for State {
    open spec fn obeys_from_spec() -> bool {
        true
    }

    open spec fn from_spec(r: Gc3) -> State {
        State::Gc3(r)
    }
}

impl core::convert::TryFrom<State> for Gc3 {
    type Error = InvalidAddress;

    fn try_from(s: State) -> (r: Result<Gc3, InvalidAddress>) {
        match s {
            State::Gc3(r) => Ok(r),
            _ => Err(InvalidAddress),
        }
    }
}

impl vstd::std_specs::convert::TryFromSpecImpl<State> for Gc3 {
    open spec fn obeys_try_from_spec() -> bool {
        true
    }

    open spec fn try_from_spec(s: State) -> Result<Gc3, InvalidAddress> {
        match s {
            State::Gc3(r) => Ok(r),
            _ => Err(InvalidAddress),
        }
    }
}

impl Gc3 {
    /// Provides read access to the individual fields of the register.
    pub fn read(&self) -> (r: R<Gc3>)
        ensures
            r.0 == *self,
    {
        R(*self)
    }

    /// Provides write access to the individual fields of the register.
    pub fn write(self) -> (w: W<Gc3>)
        ensures
            w.0 == self,
    {
        W(self)
    }
}

impl R<Gc3> {
    /// Read access to the `vlan` field.
    pub fn vlan(&self) -> (f: BitR)
        ensures
            f.bit == (self.0@ & 0x80 != 0),
    {
        BitR { bit: self.0.bits & 0x80 != 0 }
    }

    /// Read access to the `igmp_snoop` field.
    pub fn igmp_snoop(&self) -> (f: BitR)
        ensures
            f.bit == (self.0@ & 0x40 != 0),
    {
        BitR { bit: self.0.bits & 0x40 != 0 }
    }

    /// Read access to the `weighted_fair_queue` field.
    pub fn weighted_fair_queue(&self) -> (f: BitR)
        ensures
            f.bit == (self.0@ & 0x08 != 0),
    {
        BitR { bit: self.0.bits & 0x08 != 0 }
    }

    /// Read access to the `sniff_mode` field.
    pub fn sniff_mode(&self) -> (f: BitR)
        ensures
            f.bit == (self.0@ & 0x01 != 0),
    {
        BitR { bit: self.0.bits & 0x01 != 0 }
    }
}

impl W<Gc3> {
    /// Write access to the `vlan` field.
    pub fn vlan(self) -> (f: BitW<Gc3>)
        ensures
            f.w == self,
            f.mask == 0x80,
    {
        BitW { w: self, mask: 0x80 }
    }

    /// Write access to the `igmp_snoop` field.
    pub fn igmp_snoop(self) -> (f: BitW<Gc3>)
        ensures
            f.w == self,
            f.mask == 0x40,
    {
        BitW { w: self, mask: 0x40 }
    }

    /// Write access to the `weighted_fair_queue` field.
    pub fn weighted_fair_queue(self) -> (f: BitW<Gc3>)
        ensures
            f.w == self,
            f.mask == 0x08,
    {
        BitW { w: self, mask: 0x08 }
    }

    /// Write access to the `sniff_mode` field.
    pub fn sniff_mode(self) -> (f: BitW<Gc3>)
        ensures
            f.w == self,
            f.mask == 0x01,
    {
        BitW { w: self, mask: 0x01 }
    }
}

/// The `Gc4` register, at address `0x06`.
#[derive(Clone, Copy, Debug, PartialEq, Eq, Structural, Hash)]
pub struct Gc4 {
    bits: u8,
}

impl View for Gc4 {
    type V = u8;

    closed spec fn view(&self) -> u8 {
        self.bits
    }
}

impl Register for Gc4 {
    open spec fn spec_address() -> Address {
        Address::Gc4
    }

    closed spec fn spec_from_bits(bits: u8) -> Gc4 {
        Gc4 { bits }
    }

    proof fn lemma_from_bits(bits: u8) {
    }

    fn address() -> (a: Address) {
        Address::Gc4
    }

    fn from_bits(bits: u8) -> (r: Gc4) {
        Gc4 { bits }
    }

    fn to_bits(&self) -> (b: u8) {
        self.bits
    }
}

impl Default for Gc4 {
    fn default() -> (r: Gc4)
        ensures
            r@ == default_bits(Address::Gc4),
    {
        Gc4 { bits: 0x10 }
    }
}

impl From<u8> for Gc4 {
    fn from(bits: u8) -> (r: Gc4) {
        Gc4 { bits }
    }
}

impl vstd::std_specs::convert::FromSpecImpl<u8> for Gc4 {
    open spec fn obeys_from_spec() -> bool {
        true
    }

    open spec fn from_spec(bits: u8) -> Gc4 {
        <Gc4 as Register>::spec_from_bits(bits)
    }
}

impl From<Gc4> for u8 {
    fn from(r: Gc4) -> (bits: u8) {
        r.bits
    }
}

impl vstd::std_specs::convert::FromSpecImpl<Gc4> for u8 {
    open spec fn obeys_from_spec() -> bool {
        true
    }

    open spec fn from_spec(r: Gc4) -> u8 {
        r@
    }
}

impl From<Gc4> for State {
    fn from(r: Gc4) -> (s: State) {
        State::Gc4(r)
    }
}

impl vstd::std_specs::convert::FromSpecImpl<Gc4> for State {
    open spec fn obeys_from_spec() -> bool {
        true
    }

    open spec fn from_spec(r: Gc4) -> State {
        State::Gc4(r)
    }
}

impl core::convert::TryFrom<State> for Gc4 {
    type Error = InvalidAddress;

    fn try_from(s: State) -> (r: Result<Gc4, InvalidAddress>) {
        match s {
            State::Gc4(r) => Ok(r),
            _ => Err(InvalidAddress),
        }
    }
}

impl vstd::std_specs::convert::TryFromSpecImpl<State> for Gc4 {
    open spec fn obeys_try_from_spec() -> bool {
        true
    }

    open spec fn try_from_spec(s: State) -> Result<Gc4, InvalidAddress> {
        match s {
            State::Gc4(r) => Ok(r),
            _ => Err(InvalidAddress),
        }
    }
}

impl Gc4 {
    /// Provides read access to the individual fields of the register.
    pub fn read(&self) -> (r: R<Gc4>)
        ensures
            r.0 == *self,
    {
        R(*self)
    }

    /// Provides write access to the individual fields of the register.
    pub fn write(self) -> (w: W<Gc4>)
        ensures
            w.0 == self,
    {
        W(self)
    }
}

impl R<Gc4> {
    /// Read access to the `mii_hd_mode` field.
    pub fn mii_hd_mode(&self) -> (f: BitR)
        ensures
            f.bit == (self.0@ & 0x40 != 0),
    {
        BitR { bit: self.0.bits & 0x40 != 0 }
    }

    /// Read access to the `mii_flow_ctrl` field.
    pub fn mii_flow_ctrl(&self) -> (f: BitR)
        ensures
            f.bit == (self.0@ & 0x20 != 0),
    {
        BitR { bit: self.0.bits & 0x20 != 0 }
    }

    /// Read access to the `mii_10_bt` field.
    pub fn mii_10_bt(&self) -> (f: BitR)
        ensures
            f.bit == (self.0@ & 0x10 != 0),
    {
        BitR { bit: self.0.bits & 0x10 != 0 }
    }

    /// Read access to the `null_vid_replacement` field.
    pub fn null_vid_replacement(&self) -> (f: BitR)
        ensures
            f.bit == (self.0@ & 0x08 != 0),
    {
        BitR { bit: self.0.bits & 0x08 != 0 }
    }

    /// Read access to the `broadcast_storm_protection_rate_high` field.
    pub fn broadcast_storm_protection_rate_high(&self) -> (f: BitsR<u8>)
        ensures
            f.bits == load8(self.0@, 0x07, 0),
    {
        BitsR { bits: (self.0.bits & 0x07) >> 0u8 }
    }
}

impl W<Gc4> {
    /// Write access to the `mii_hd_mode` field.
    pub fn mii_hd_mode(self) -> (f: BitW<Gc4>)
        ensures
            f.w == self,
            f.mask == 0x40,
    {
        BitW { w: self, mask: 0x40 }
    }

    /// Write access to the `mii_flow_ctrl` field.
    pub fn mii_flow_ctrl(self) -> (f: BitW<Gc4>)
        ensures
            f.w == self,
            f.mask == 0x20,
    {
        BitW { w: self, mask: 0x20 }
    }

    /// Write access to the `mii_10_bt` field.
    pub fn mii_10_bt(self) -> (f: BitW<Gc4>)
        ensures
            f.w == self,
            f.mask == 0x10,
    {
        BitW { w: self, mask: 0x10 }
    }

    /// Write access to the `null_vid_replacement` field.
    pub fn null_vid_replacement(self) -> (f: BitW<Gc4>)
        ensures
            f.w == self,
            f.mask == 0x08,
    {
        BitW { w: self, mask: 0x08 }
    }

    /// Write access to the `broadcast_storm_protection_rate_high` field.
    pub fn broadcast_storm_protection_rate_high(self) -> (f: BitsW<Gc4>)
        ensures
            f.w == self,
            f.mask == 0x07,
            f.shift == 0,
    {
        BitsW { w: self, mask: 0x07, shift: 0 }
    }
}

/// The `Gc5` register, at address `0x07`.
#[derive(Clone, Copy, Debug, PartialEq, Eq, Structural, Hash)]
pub struct Gc5 {
    bits: u8,
}

impl View for Gc5 {
    type V = u8;

    closed spec fn view(&self) -> u8 {
        self.bits
    }
}

impl Register for Gc5 {
    open spec fn spec_address() -> Address {
        Address::Gc5
    }

    closed spec fn spec_from_bits(bits: u8) -> Gc5 {
        Gc5 { bits }
    }

    proof fn lemma_from_bits(bits: u8) {
    }

    fn address() -> (a: Address) {
        Address::Gc5
    }

    fn from_bits(bits: u8) -> (r: Gc5) {
        Gc5 { bits }
    }

    fn to_bits(&self) -> (b: u8) {
        self.bits
    }
}

impl Default for Gc5 {
    fn default() -> (r: Gc5)
        ensures
            r@ == default_bits(Address::Gc5),
    {
        Gc5 { bits: 0x63 }
    }
}

impl From<u8> for Gc5 {
    fn from(bits: u8) -> (r: Gc5) {
        Gc5 { bits }
    }
}

impl vstd::std_specs::convert::FromSpecImpl<u8> for Gc5 {
    open spec fn obeys_from_spec() -> bool {
        true
    }

    open spec fn from_spec(bits: u8) -> Gc5 {
        <Gc5 as Register>::spec_from_bits(bits)
    }
}

impl From<Gc5> for u8 {
    fn from(r: Gc5) -> (bits: u8) {
        r.bits
    }
}

impl vstd::std_specs::convert::FromSpecImpl<Gc5> for u8 {
    open spec fn obeys_from_spec() -> bool {
        true
    }

    open spec fn from_spec(r: Gc5) -> u8 {
        r@
    }
}

impl From<Gc5> for State {
    fn from(r: Gc5) -> (s: State) {
        State::Gc5(r)
    }
}

impl vstd::std_specs::convert::FromSpecImpl<Gc5> for State {
    open spec fn obeys_from_spec() -> bool {
        true
    }

    open spec fn from_spec(r: Gc5) -> State {
        State::Gc5(r)
    }
}

impl core::convert::TryFrom<State> for Gc5 {
    type Error = InvalidAddress;

    fn try_from(s: State) -> (r: Result<Gc5, InvalidAddress>) {
        match s {
            State::Gc5(r) => Ok(r),
            _ => Err(InvalidAddress),
        }
    }
}

impl vstd::std_specs::convert::TryFromSpecImpl<State> for Gc5 {
    open spec fn obeys_try_from_spec() -> bool {
        true
    }

    open spec fn try_from_spec(s: State) -> Result<Gc5, InvalidAddress> {
        match s {
            State::Gc5(r) => Ok(r),
            _ => Err(InvalidAddress),
        }
    }
}

impl Gc5 {
    /// Provides read access to the individual fields of the register.
    pub fn read(&self) -> (r: R<Gc5>)
        ensures
            r.0 == *self,
    {
        R(*self)
    }

    /// Provides write access to the individual fields of the register.
    pub fn write(self) -> (w: W<Gc5>)
        ensures
            w.0 == self,
    {
        W(self)
    }
}

impl R<Gc5> {
    /// Read access to the `broadcast_storm_protection_rate_low` field.
    pub fn broadcast_storm_protection_rate_low(&self) -> (f: BitsR<u8>)
        ensures
            f.bits == load8(self.0@, 0xff, 0),
    {
        BitsR { bits: (self.0.bits & 0xff) >> 0u8 }
    }
}

impl W<Gc5> {
    /// Write access to the `broadcast_storm_protection_rate_low` field.
    pub fn broadcast_storm_protection_rate_low(self) -> (f: BitsW<Gc5>)
        ensures
            f.w == self,
            f.mask == 0xff,
            f.shift == 0,
    {
        BitsW { w: self, mask: 0xff, shift: 0 }
    }
}

/// The `Gc9` register, at address `0x0b`.
#[derive(Clone, Copy, Debug, PartialEq, Eq, Structural, Hash)]
pub struct Gc9 {
    bits: u8,
}

impl View for Gc9 {
    type V = u8;

    closed spec fn view(&self) -> u8 {
        self.bits
    }
}

impl Register for Gc9 {
    open spec fn spec_address() -> Address {
        Address::Gc9
    }

    closed spec fn spec_from_bits(bits: u8) -> Gc9 {
        Gc9 { bits }
    }

    proof fn lemma_from_bits(bits: u8) {
    }

    fn address() -> (a: Address) {
        Address::Gc9
    }

    fn from_bits(bits: u8) -> (r: Gc9) {
        Gc9 { bits }
    }

    fn to_bits(&self) -> (b: u8) {
        self.bits
    }
}

impl Default for Gc9 {
    fn default() -> (r: Gc9)
        ensures
            r@ == default_bits(Address::Gc9),
    {
        Gc9 { bits: 0x88 }
    }
}

impl From<u8> for Gc9 {
    fn from(bits: u8) -> (r: Gc9) {
        Gc9 { bits }
    }
}

impl vstd::std_specs::convert::FromSpecImpl<u8> for Gc9 {
    open spec fn obeys_from_spec() -> bool {
        true
    }

    open spec fn from_spec(bits: u8) -> Gc9 {
        <Gc9 as Register>::spec_from_bits(bits)
    }
}

impl From<Gc9> for u8 {
    fn from(r: Gc9) -> (bits: u8) {
        r.bits
    }
}

impl vstd::std_specs::convert::FromSpecImpl<Gc9> for u8 {
    open spec fn obeys_from_spec() -> bool {
        true
    }

    open spec fn from_spec(r: Gc9) -> u8 {
        r@
    }
}

impl From<Gc9> for State {
    fn from(r: Gc9) -> (s: State) {
        State::Gc9(r)
    }
}

impl vstd::std_specs::convert::FromSpecImpl<Gc9> for State {
    open spec fn obeys_from_spec() -> bool {
        true
    }

    open spec fn from_spec(r: Gc9) -> State {
        State::Gc9(r)
    }
}

impl core::convert::TryFrom<State> for Gc9 {
    type Error = InvalidAddress;

    fn try_from(s: State) -> (r: Result<Gc9, InvalidAddress>) {
        match s {
            State::Gc9(r) => Ok(r),
            _ => Err(InvalidAddress),
        }
    }
}

impl vstd::std_specs::convert::TryFromSpecImpl<State> for Gc9 {
    open spec fn obeys_try_from_spec() -> bool {
        true
    }

    open spec fn try_from_spec(s: State) -> Result<Gc9, InvalidAddress> {
        match s {
            State::Gc9(r) => Ok(r),
            _ => Err(InvalidAddress),
        }
    }
}

impl Gc9 {
    /// Provides read access to the individual fields of the register.
    pub fn read(&self) -> (r: R<Gc9>)
        ensures
            r.0 == *self,
    {
        R(*self)
    }

    /// Provides write access to the individual fields of the register.
    pub fn write(self) -> (w: W<Gc9>)
        ensures
            w.0 == self,
    {
        W(self)
    }
}

impl R<Gc9> {
    /// Read access to the `cpu_iface_clk` field.
    pub fn cpu_iface_clk(&self) -> (f: BitsR<u8>)
        ensures
            f.bits == load8(self.0@, 0xc0, 6),
    {
        BitsR { bits: (self.0.bits & 0xc0) >> 6u8 }
    }

    /// Read access to the `reserved` field.
    pub fn reserved(&self) -> (f: BitsR<u8>)
        ensures
            f.bits == load8(self.0@, 0x0c, 2),
    {
        BitsR { bits: (self.0.bits & 0x0c) >> 2u8 }
    }
}

impl W<Gc9> {
    /// Write access to the `cpu_iface_clk` field.
    pub fn cpu_iface_clk(self) -> (f: BitsW<Gc9>)
        ensures
            f.w == self,
            f.mask == 0xc0,
            f.shift == 6,
    {
        BitsW { w: self, mask: 0xc0, shift: 6 }
    }
}

/// The `Gc10` register, at address `0x0c`.
#[derive(Clone, Copy, Debug, PartialEq, Eq, Structural, Hash)]
pub struct Gc10 {
    bits: u8,
}

impl View for Gc10 {
    type V = u8;

    closed spec fn view(&self) -> u8 {
        self.bits
    }
}

impl Register for Gc10 {
    open spec fn spec_address() -> Address {
        Address::Gc10
    }

    closed spec fn spec_from_bits(bits: u8) -> Gc10 {
        Gc10 { bits }
    }

    proof fn lemma_from_bits(bits: u8) {
    }

    fn address() -> (a: Address) {
        Address::Gc10
    }

    fn from_bits(bits: u8) -> (r: Gc10) {
        Gc10 { bits }
    }

    fn to_bits(&self) -> (b: u8) {
        self.bits
    }
}

impl Default for Gc10 {
    fn default() -> (r: Gc10)
        ensures
            r@ == default_bits(Address::Gc10),
    {
        Gc10 { bits: 0x50 }
    }
}

impl From<u8> for Gc10 {
    fn from(bits: u8) -> (r: Gc10) {
        Gc10 { bits }
    }
}

impl vstd::std_specs::convert::FromSpecImpl<u8> for Gc10 {
    open spec fn obeys_from_spec() -> bool {
        true
    }

    open spec fn from_spec(bits: u8) -> Gc10 {
        <Gc10 as Register>::spec_from_bits(bits)
    }
}

impl From<Gc10> for u8 {
    fn from(r: Gc10) -> (bits: u8) {
        r.bits
    }
}

impl vstd::std_specs::convert::FromSpecImpl<Gc10> for u8 {
    open spec fn obeys_from_spec() -> bool {
        true
    }

    open spec fn from_spec(r: Gc10) -> u8 {
        r@
    }
}

impl From<Gc10> for State {
    fn from(r: Gc10) -> (s: State) {
        State::Gc10(r)
    }
}

impl vstd::std_specs::convert::FromSpecImpl<Gc10> for State {
    open spec fn obeys_from_spec() -> bool {
        true
    }

    open spec fn from_spec(r: Gc10) -> State {
        State::Gc10(r)
    }
}

impl core::convert::TryFrom<State> for Gc10 {
    type Error = InvalidAddress;

    fn try_from(s: State) -> (r: Result<Gc10, InvalidAddress>) {
        match s {
            State::Gc10(r) => Ok(r),
            _ => Err(InvalidAddress),
        }
    }
}

impl vstd::std_specs::convert::TryFromSpecImpl<State> for Gc10 {
    open spec fn obeys_try_from_spec() -> bool {
        true
    }

    open spec fn try_from_spec(s: State) -> Result<Gc10, InvalidAddress> {
        match s {
            State::Gc10(r) => Ok(r),
            _ => Err(InvalidAddress),
        }
    }
}

impl Gc10 {
    /// Provides read access to the individual fields of the register.
    pub fn read(&self) -> (r: R<Gc10>)
        ensures
            r.0 == *self,
    {
        R(*self)
    }

    /// Provides write access to the individual fields of the register.
    pub fn write(self) -> (w: W<Gc10>)
        ensures
            w.0 == self,
    {
        W(self)
    }
}

impl R<Gc10> {
    /// Read access to the `tag_0x3` field.
    pub fn tag_0x3(&self) -> (f: BitsR<u8>)
        ensures
            f.bits == load8(self.0@, 0xc0, 6),
    {
        BitsR { bits: (self.0.bits & 0xc0) >> 6u8 }
    }

    /// Read access to the `tag_0x2` field.
    pub fn tag_0x2(&self) -> (f: BitsR<u8>)
        ensures
            f.bits == load8(self.0@, 0x30, 4),
    {
        BitsR { bits: (self.0.bits & 0x30) >> 4u8 }
    }

    /// Read access to the `tag_0x1` field.
    pub fn tag_0x1(&self) -> (f: BitsR<u8>)
        ensures
            f.bits == load8(self.0@, 0x0c, 2),
    {
        BitsR { bits: (self.0.bits & 0x0c) >> 2u8 }
    }

    /// Read access to the `tag_0x0` field.
    pub fn tag_0x0(&self) -> (f: BitsR<u8>)
        ensures
            f.bits == load8(self.0@, 0x03, 0),
    {
        BitsR { bits: (self.0.bits & 0x03) >> 0u8 }
    }
}

impl W<Gc10> {
    /// Write access to the `tag_0x3` field.
    pub fn tag_0x3(self) -> (f: BitsW<Gc10>)
        ensures
            f.w == self,
            f.mask == 0xc0,
            f.shift == 6,
    {
        BitsW { w: self, mask: 0xc0, shift: 6 }
    }

    /// Write access to the `tag_0x2` field.
    pub fn tag_0x2(self) -> (f: BitsW<Gc10>)
        ensures
            f.w == self,
            f.mask == 0x30,
            f.shift == 4,
    {
        BitsW { w: self, mask: 0x30, shift: 4 }
    }

    /// Write access to the `tag_0x1` field.
    pub fn tag_0x1(self) -> (f: BitsW<Gc10>)
        ensures
            f.w == self,
            f.mask == 0x0c,
            f.shift == 2,
    {
        BitsW { w: self, mask: 0x0c, shift: 2 }
    }

    /// Write access to the `tag_0x0` field.
    pub fn tag_0x0(self) -> (f: BitsW<Gc10>)
        ensures
            f.w == self,
            f.mask == 0x03,
            f.shift == 0,
    {
        BitsW { w: self, mask: 0x03, shift: 0 }
    }
}

/// The `Gc11` register, at address `0x0d`.
#[derive(Clone, Copy, Debug, PartialEq, Eq, Structural, Hash)]
pub struct Gc11 {
    bits: u8,
}

impl View for Gc11 {
    type V = u8;

    closed spec fn view(&self) -> u8 {
        self.bits
    }
}

impl Register for Gc11 {
    open spec fn spec_address() -> Address {
        Address::Gc11
    }

    closed spec fn spec_from_bits(bits: u8) -> Gc11 {
        Gc11 { bits }
    }

    proof fn lemma_from_bits(bits: u8) {
    }

    fn address() -> (a: Address) {
        Address::Gc11
    }

    fn from_bits(bits: u8) -> (r: Gc11) {
        Gc11 { bits }
    }

    fn to_bits(&self) -> (b: u8) {
        self.bits
    }
}

impl Default for Gc11 {
    fn default() -> (r: Gc11)
        ensures
            r@ == default_bits(Address::Gc11),
    {
        Gc11 { bits: 0xfa }
    }
}

impl From<u8> for Gc11 {
    fn from(bits: u8) -> (r: Gc11) {
        Gc11 { bits }
    }
}

impl vstd::std_specs::convert::FromSpecImpl<u8> for Gc11 {
    open spec fn obeys_from_spec() -> bool {
        true
    }

    open spec fn from_spec(bits: u8) -> Gc11 {
        <Gc11 as Register>::spec_from_bits(bits)
    }
}

impl From<Gc11> for u8 {
    fn from(r: Gc11) -> (bits: u8) {
        r.bits
    }
}

impl vstd::std_specs::convert::FromSpecImpl<Gc11> for u8 {
    open spec fn obeys_from_spec() -> bool {
        true
    }

    open spec fn from_spec(r: Gc11) -> u8 {
        r@
    }
}

impl From<Gc11> for State {
    fn from(r: Gc11) -> (s: State) {
        State::Gc11(r)
    }
}

impl vstd::std_specs::convert::FromSpecImpl<Gc11> for State {
    open spec fn obeys_from_spec() -> bool {
        true
    }

    open spec fn from_spec(r: Gc11) -> State {
        State::Gc11(r)
    }
}

impl core::convert::TryFrom<State> for Gc11 {
    type Error = InvalidAddress;

    fn try_from(s: State) -> (r: Result<Gc11, InvalidAddress>) {
        match s {
            State::Gc11(r) => Ok(r),
            _ => Err(InvalidAddress),
        }
    }
}

impl vstd::std_specs::convert::TryFromSpecImpl<State> for Gc11 {
    open spec fn obeys_try_from_spec() -> bool {
        true
    }

    open spec fn try_from_spec(s: State) -> Result<Gc11, InvalidAddress> {
        match s {
            State::Gc11(r) => Ok(r),
            _ => Err(InvalidAddress),
        }
    }
}

impl Gc11 {
    /// Provides read access to the individual fields of the register.
    pub fn read(&self) -> (r: R<Gc11>)
        ensures
            r.0 == *self,
    {
        R(*self)
    }

    /// Provides write access to the individual fields of the register.
    pub fn write(self) -> (w: W<Gc11>)
        ensures
            w.0 == self,
    {
        W(self)
    }
}

impl R<Gc11> {
    /// Read access to the `tag_0x7` field.
    pub fn tag_0x7(&self) -> (f: BitsR<u8>)
        ensures
            f.bits == load8(self.0@, 0xc0, 6),
    {
        BitsR { bits: (self.0.bits & 0xc0) >> 6u8 }
    }

    /// Read access to the `tag_0x6` field.
    pub fn tag_0x6(&self) -> (f: BitsR<u8>)
        ensures
            f.bits == load8(self.0@, 0x30, 4),
    {
        BitsR { bits: (self.0.bits & 0x30) >> 4u8 }
    }

    /// Read access to the `tag_0x5` field.
    pub fn tag_0x5(&self) -> (f: BitsR<u8>)
        ensures
            f.bits == load8(self.0@, 0x0c, 2),
    {
        BitsR { bits: (self.0.bits & 0x0c) >> 2u8 }
    }

    /// Read access to the `tag_0x4` field.
    pub fn tag_0x4(&self) -> (f: BitsR<u8>)
        ensures
            f.bits == load8(self.0@, 0x03, 0),
    {
        BitsR { bits: (self.0.bits & 0x03) >> 0u8 }
    }
}

impl W<Gc11> {
    /// Write access to the `tag_0x7` field.
    pub fn tag_0x7(self) -> (f: BitsW<Gc11>)
        ensures
            f.w == self,
            f.mask == 0xc0,
            f.shift == 6,
    {
        BitsW { w: self, mask: 0xc0, shift: 6 }
    }

    /// Write access to the `tag_0x6` field.
    pub fn tag_0x6(self) -> (f: BitsW<Gc11>)
        ensures
            f.w == self,
            f.mask == 0x30,
            f.shift == 4,
    {
        BitsW { w: self, mask: 0x30, shift: 4 }
    }

    /// Write access to the `tag_0x5` field.
    pub fn tag_0x5(self) -> (f: BitsW<Gc11>)
        ensures
            f.w == self,
            f.mask == 0x0c,
            f.shift == 2,
    {
        BitsW { w: self, mask: 0x0c, shift: 2 }
    }

    /// Write access to the `tag_0x4` field.
    pub fn tag_0x4(self) -> (f: BitsW<Gc11>)
        ensures
            f.w == self,
            f.mask == 0x03,
            f.shift == 0,
    {
        BitsW { w: self, mask: 0x03, shift: 0 }
    }
}

/// The `Gc12` register, at address `0x0e`.
#[derive(Clone, Copy, Debug, PartialEq, Eq, Structural, Hash)]
pub struct Gc12 {
    bits: u8,
}

impl View for Gc12 {
    type V = u8;

    closed spec fn view(&self) -> u8 {
        self.bits
    }
}

impl Register for Gc12 {
    open spec fn spec_address() -> Address {
        Address::Gc12
    }

    closed spec fn spec_from_bits(bits: u8) -> Gc12 {
        Gc12 { bits }
    }

    proof fn lemma_from_bits(bits: u8) {
    }

    fn address() -> (a: Address) {
        Address::Gc12
    }

    fn from_bits(bits: u8) -> (r: Gc12) {
        Gc12 { bits }
    }

    fn to_bits(&self) -> (b: u8) {
        self.bits
    }
}

impl Default for Gc12 {
    fn default() -> (r: Gc12)
        ensures
            r@ == default_bits(Address::Gc12),
    {
        Gc12 { bits: 0x47 }
    }
}

impl From<u8> for Gc12 {
    fn from(bits: u8) -> (r: Gc12) {
        Gc12 { bits }
    }
}

impl vstd::std_specs::convert::FromSpecImpl<u8> for Gc12 {
    open spec fn obeys_from_spec() -> bool {
        true
    }

    open spec fn from_spec(bits: u8) -> Gc12 {
        <Gc12 as Register>::spec_from_bits(bits)
    }
}

impl From<Gc12> for u8 {
    fn from(r: Gc12) -> (bits: u8) {
        r.bits
    }
}

impl vstd::std_specs::convert::FromSpecImpl<Gc12> for u8 {
    open spec fn obeys_from_spec() -> bool {
        true
    }

    open spec fn from_spec(r: Gc12) -> u8 {
        r@
    }
}

impl From<Gc12> for State {
    fn from(r: Gc12) -> (s: State) {
        State::Gc12(r)
    }
}

impl vstd::std_specs::convert::FromSpecImpl<Gc12> for State {
    open spec fn obeys_from_spec() -> bool {
        true
    }

    open spec fn from_spec(r: Gc12) -> State {
        State::Gc12(r)
    }
}

impl core::convert::TryFrom<State> for Gc12 {
    type Error = InvalidAddress;

    fn try_from(s: State) -> (r: Result<Gc12, InvalidAddress>) {
        match s {
            State::Gc12(r) => Ok(r),
            _ => Err(InvalidAddress),
        }
    }
}

impl vstd::std_specs::convert::TryFromSpecImpl<State> for Gc12 {
    open spec fn obeys_try_from_spec() -> bool {
        true
    }

    open spec fn try_from_spec(s: State) -> Result<Gc12, InvalidAddress> {
        match s {
            State::Gc12(r) => Ok(r),
            _ => Err(InvalidAddress),
        }
    }
}

impl Gc12 {
    /// Provides read access to the individual fields of the register.
    pub fn read(&self) -> (r: R<Gc12>)
        ensures
            r.0 == *self,
    {
        R(*self)
    }

    /// Provides write access to the individual fields of the register.
    pub fn write(self) -> (w: W<Gc12>)
        ensures
            w.0 == self,
    {
        W(self)
    }
}

impl R<Gc12> {
    /// Read access to the `unknown_packet_default_port_enable` field.
    pub fn unknown_packet_default_port_enable(&self) -> (f: BitR)
        ensures
            f.bit == (self.0@ & 0x80 != 0),
    {
        BitR { bit: self.0.bits & 0x80 != 0 }
    }

    /// Read access to the `drive_strength` field.
    pub fn drive_strength(&self) -> (f: BitR)
        ensures
            f.bit == (self.0@ & 0x40 != 0),
    {
        BitR { bit: self.0.bits & 0x40 != 0 }
    }

    /// Read access to the `unknown_packet_default_port` field.
    pub fn unknown_packet_default_port(&self) -> (f: BitsR<u8>)
        ensures
            f.bits == load8(self.0@, 0x07, 0),
    {
        BitsR { bits: (self.0.bits & 0x07) >> 0u8 }
    }
}

impl W<Gc12> {
    /// Write access to the `unknown_packet_default_port_enable` field.
    pub fn unknown_packet_default_port_enable(self) -> (f: BitW<Gc12>)
        ensures
            f.w == self,
            f.mask == 0x80,
    {
        BitW { w: self, mask: 0x80 }
    }

    /// Write access to the `drive_strength` field.
    pub fn drive_strength(self) -> (f: BitW<Gc12>)
        ensures
            f.w == self,
            f.mask == 0x40,
    {
        BitW { w: self, mask: 0x40 }
    }

    /// Write access to the `unknown_packet_default_port` field.
    pub fn unknown_packet_default_port(self) -> (f: BitsW<Gc12>)
        ensures
            f.w == self,
            f.mask == 0x07,
            f.shift == 0,
    {
        BitsW { w: self, mask: 0x07, shift: 0 }
    }
}

/// The `Gc13` register, at address `0x0f`.
#[derive(Clone, Copy, Debug, PartialEq, Eq, Structural, Hash)]
pub struct Gc13 {
    bits: u8,
}

impl View for Gc13 {
    type V = u8;

    closed spec fn view(&self) -> u8 {
        self.bits
    }
}

impl Register for Gc13 {
    open spec fn spec_address() -> Address {
        Address::Gc13
    }

    closed spec fn spec_from_bits(bits: u8) -> Gc13 {
        Gc13 { bits }
    }

    proof fn lemma_from_bits(bits: u8) {
    }

    fn address() -> (a: Address) {
        Address::Gc13
    }

    fn from_bits(bits: u8) -> (r: Gc13) {
        Gc13 { bits }
    }

    fn to_bits(&self) -> (b: u8) {
        self.bits
    }
}

impl Default for Gc13 {
    fn default() -> (r: Gc13)
        ensures
            r@ == default_bits(Address::Gc13),
    {
        Gc13 { bits: 0x08 }
    }
}

impl From<u8> for Gc13 {
    fn from(bits: u8) -> (r: Gc13) {
        Gc13 { bits }
    }
}

impl vstd::std_specs::convert::FromSpecImpl<u8> for Gc13 {
    open spec fn obeys_from_spec() -> bool {
        true
    }

    open spec fn from_spec(bits: u8) -> Gc13 {
        <Gc13 as Register>::spec_from_bits(bits)
    }
}

impl From<Gc13> for u8 {
    fn from(r: Gc13) -> (bits: u8) {
        r.bits
    }
}

impl vstd::std_specs::convert::FromSpecImpl<Gc13> for u8 {
    open spec fn obeys_from_spec() -> bool {
        true
    }

    open spec fn from_spec(r: Gc13) -> u8 {
        r@
    }
}

impl From<Gc13> for State {
    fn from(r: Gc13) -> (s: State) {
        State::Gc13(r)
    }
}

impl vstd::std_specs::convert::FromSpecImpl<Gc13> for State {
    open spec fn obeys_from_spec() -> bool {
        true
    }

    open spec fn from_spec(r: Gc13) -> State {
        State::Gc13(r)
    }
}

impl core::convert::TryFrom<State> for Gc13 {
    type Error = InvalidAddress;

    fn try_from(s: State) -> (r: Result<Gc13, InvalidAddress>) {
        match s {
            State::Gc13(r) => Ok(r),
            _ => Err(InvalidAddress),
        }
    }
}

impl vstd::std_specs::convert::TryFromSpecImpl<State> for Gc13 {
    open spec fn obeys_try_from_spec() -> bool {
        true
    }

    open spec fn try_from_spec(s: State) -> Result<Gc13, InvalidAddress> {
        match s {
            State::Gc13(r) => Ok(r),
            _ => Err(InvalidAddress),
        }
    }
}

impl Gc13 {
    /// Provides read access to the individual fields of the register.
    pub fn read(&self) -> (r: R<Gc13>)
        ensures
            r.0 == *self,
    {
        R(*self)
    }

    /// Provides write access to the individual fields of the register.
    pub fn write(self) -> (w: W<Gc13>)
        ensures
            w.0 == self,
    {
        W(self)
    }
}

impl R<Gc13> {
    /// Read access to the `phy_addr` field.
    pub fn phy_addr(&self) -> (f: BitsR<u8>)
        ensures
            f.bits == load8(self.0@, 0xf8, 3),
    {
        BitsR { bits: (self.0.bits & 0xf8) >> 3u8 }
    }
}

impl W<Gc13> {
    /// Write access to the `phy_addr` field.
    pub fn phy_addr(self) -> (f: BitsW<Gc13>)
        ensures
            f.w == self,
            f.mask == 0xf8,
            f.shift == 3,
    {
        BitsW { w: self, mask: 0xf8, shift: 3 }
    }
}

/// The `Port1Ctrl0` register, at address `0x10`.
#[derive(Clone, Copy, Debug, PartialEq, Eq, Structural, Hash)]
pub struct Port1Ctrl0 {
    bits: u8,
}

impl View for Port1Ctrl0 {
    type V = u8;

    closed spec fn view(&self) -> u8 {
        self.bits
    }
}

impl Register for Port1Ctrl0 {
    open spec fn spec_address() -> Address {
        Address::Port1Ctrl0
    }

    closed spec fn spec_from_bits(bits: u8) -> Port1Ctrl0 {
        Port1Ctrl0 { bits }
    }

    proof fn lemma_from_bits(bits: u8) {
    }

    fn address() -> (a: Address) {
        Address::Port1Ctrl0
    }

    fn from_bits(bits: u8) -> (r: Port1Ctrl0) {
        Port1Ctrl0 { bits }
    }

    fn to_bits(&self) -> (b: u8) {
        self.bits
    }
}

impl Default for Port1Ctrl0 {
    fn default() -> (r: Port1Ctrl0)
        ensures
            r@ == default_bits(Address::Port1Ctrl0),
    {
        Port1Ctrl0 { bits: 0x00 }
    }
}

impl From<u8> for Port1Ctrl0 {
    fn from(bits: u8) -> (r: Port1Ctrl0) {
        Port1Ctrl0 { bits }
    }
}

impl vstd::std_specs::convert::FromSpecImpl<u8> for Port1Ctrl0 {
    open spec fn obeys_from_spec() -> bool {
        true
    }

    open spec fn from_spec(bits: u8) -> Port1Ctrl0 {
        <Port1Ctrl0 as Register>::spec_from_bits(bits)
    }
}

impl From<Port1Ctrl0> for u8 {
    fn from(r: Port1Ctrl0) -> (bits: u8) {
        r.bits
    }
}

impl vstd::std_specs::convert::FromSpecImpl<Port1Ctrl0> for u8 {
    open spec fn obeys_from_spec() -> bool {
        true
    }

    open spec fn from_spec(r: Port1Ctrl0) -> u8 {
        r@
    }
}

impl From<Port1Ctrl0> for State {
    fn from(r: Port1Ctrl0) -> (s: State) {
        State::Port1Ctrl0(r)
    }
}

impl vstd::std_specs::convert::FromSpecImpl<Port1Ctrl0> for State {
    open spec fn obeys_from_spec() -> bool {
        true
    }

    open spec fn from_spec(r: Port1Ctrl0) -> State {
        State::Port1Ctrl0(r)
    }
}

impl core::convert::TryFrom<State> for Port1Ctrl0 {
    type Error = InvalidAddress;

    fn try_from(s: State) -> (r: Result<Port1Ctrl0, InvalidAddress>) {
        match s {
            State::Port1Ctrl0(r) => Ok(r),
            _ => Err(InvalidAddress),
        }
    }
}

impl vstd::std_specs::convert::TryFromSpecImpl<State> for Port1Ctrl0 {
    open spec fn obeys_try_from_spec() -> bool {
        true
    }

    open spec fn try_from_spec(s: State) -> Result<Port1Ctrl0, InvalidAddress> {
        match s {
            State::Port1Ctrl0(r) => Ok(r),
            _ => Err(InvalidAddress),
        }
    }
}

impl Port1Ctrl0 {
    /// Provides read access to the individual fields of the register.
    pub fn read(&self) -> (r: R<Port1Ctrl0>)
        ensures
            r.0 == *self,
    {
        R(*self)
    }

    /// Provides write access to the individual fields of the register.
    pub fn write(self) -> (w: W<Port1Ctrl0>)
        ensures
            w.0 == self,
    {
        W(self)
    }
}

impl R<Port1Ctrl0> {
    /// Read access to the `broadcast_storm_protection` field.
    pub fn broadcast_storm_protection(&self) -> (f: BitR)
        ensures
            f.bit == (self.0@ & 0x80 != 0),
    {
        BitR { bit: self.0.bits & 0x80 != 0 }
    }

    /// Read access to the `diff_serv_priority_classification` field.
    pub fn diff_serv_priority_classification(&self) -> (f: BitR)
        ensures
            f.bit == (self.0@ & 0x40 != 0),
    {
        BitR { bit: self.0.bits & 0x40 != 0 }
    }

    /// Read access to the `ieee_priority_classification` field.
    pub fn ieee_priority_classification(&self) -> (f: BitR)
        ensures
            f.bit == (self.0@ & 0x20 != 0),
    {
        BitR { bit: self.0.bits & 0x20 != 0 }
    }

    /// Read access to the `port_based_priority_classification` field.
    pub fn port_based_priority_classification(&self) -> (f: BitsR<u8>)
        ensures
            f.bits == load8(self.0@, 0x18, 3),
    {
        BitsR { bits: (self.0.bits & 0x18) >> 3u8 }
    }

    /// Read access to the `tag_insertion` field.
    pub fn tag_insertion(&self) -> (f: BitR)
        ensures
            f.bit == (self.0@ & 0x04 != 0),
    {
        BitR { bit: self.0.bits & 0x04 != 0 }
    }

    /// Read access to the `tag_removal` field.
    pub fn tag_removal(&self) -> (f: BitR)
        ensures
            f.bit == (self.0@ & 0x02 != 0),
    {
        BitR { bit: self.0.bits & 0x02 != 0 }
    }

    /// Read access to the `txq_split` field.
    pub fn txq_split(&self) -> (f: BitR)
        ensures
            f.bit == (self.0@ & 0x01 != 0),
    {
        BitR { bit: self.0.bits & 0x01 != 0 }
    }
}

impl W<Port1Ctrl0> {
    /// Write access to the `broadcast_storm_protection` field.
    pub fn broadcast_storm_protection(self) -> (f: BitW<Port1Ctrl0>)
        ensures
            f.w == self,
            f.mask == 0x80,
    {
        BitW { w: self, mask: 0x80 }
    }

    /// Write access to the `diff_serv_priority_classification` field.
    pub fn diff_serv_priority_classification(self) -> (f: BitW<Port1Ctrl0>)
        ensures
            f.w == self,
            f.mask == 0x40,
    {
        BitW { w: self, mask: 0x40 }
    }

    /// Write access to the `ieee_priority_classification` field.
    pub fn ieee_priority_classification(self) -> (f: BitW<Port1Ctrl0>)
        ensures
            f.w == self,
            f.mask == 0x20,
    {
        BitW { w: self, mask: 0x20 }
    }

    /// Write access to the `port_based_priority_classification` field.
    pub fn port_based_priority_classification(self) -> (f: BitsW<Port1Ctrl0>)
        ensures
            f.w == self,
            f.mask == 0x18,
            f.shift == 3,
    {
        BitsW { w: self, mask: 0x18, shift: 3 }
    }

    /// Write access to the `tag_insertion` field.
    pub fn tag_insertion(self) -> (f: BitW<Port1Ctrl0>)
        ensures
            f.w == self,
            f.mask == 0x04,
    {
        BitW { w: self, mask: 0x04 }
    }

    /// Write access to the `tag_removal` field.
    pub fn tag_removal(self) -> (f: BitW<Port1Ctrl0>)
        ensures
            f.w == self,
            f.mask == 0x02,
    {
        BitW { w: self, mask: 0x02 }
    }

    /// Write access to the `txq_split` field.
    pub fn txq_split(self) -> (f: BitW<Port1Ctrl0>)
        ensures
            f.w == self,
            f.mask == 0x01,
    {
        BitW { w: self, mask: 0x01 }
    }
}

/// The `Port1Ctrl1` register, at address `0x11`.
#[derive(Clone, Copy, Debug, PartialEq, Eq, Structural, Hash)]
pub struct Port1Ctrl1 {
    bits: u8,
}

impl View for Port1Ctrl1 {
    type V = u8;

    closed spec fn view(&self) -> u8 {
        self.bits
    }
}

impl Register for Port1Ctrl1 {
    open spec fn spec_address() -> Address {
        Address::Port1Ctrl1
    }

    closed spec fn spec_from_bits(bits: u8) -> Port1Ctrl1 {
        Port1Ctrl1 { bits }
    }

    proof fn lemma_from_bits(bits: u8) {
    }

    fn address() -> (a: Address) {
        Address::Port1Ctrl1
    }

    fn from_bits(bits: u8) -> (r: Port1Ctrl1) {
        Port1Ctrl1 { bits }
    }

    fn to_bits(&self) -> (b: u8) {
        self.bits
    }
}

impl Default for Port1Ctrl1 {
    fn default() -> (r: Port1Ctrl1)
        ensures
            r@ == default_bits(Address::Port1Ctrl1),
    {
        Port1Ctrl1 { bits: 0x07 }
    }
}

impl From<u8> for Port1Ctrl1 {
    fn from(bits: u8) -> (r: Port1Ctrl1) {
        Port1Ctrl1 { bits }
    }
}

impl vstd::std_specs::convert::FromSpecImpl<u8> for Port1Ctrl1 {
    open spec fn obeys_from_spec() -> bool {
        true
    }

    open spec fn from_spec(bits: u8) -> Port1Ctrl1 {
        <Port1Ctrl1 as Register>::spec_from_bits(bits)
    }
}

impl From<Port1Ctrl1> for u8 {
    fn from(r: Port1Ctrl1) -> (bits: u8) {
        r.bits
    }
}

impl vstd::std_specs::convert::FromSpecImpl<Port1Ctrl1> for u8 {
    open spec fn obeys_from_spec() -> bool {
        true
    }

    open spec fn from_spec(r: Port1Ctrl1) -> u8 {
        r@
    }
}

impl From<Port1Ctrl1> for State {
    fn from(r: Port1Ctrl1) -> (s: State) {
        State::Port1Ctrl1(r)
    }
}

impl vstd::std_specs::convert::FromSpecImpl<Port1Ctrl1> for State {
    open spec fn obeys_from_spec() -> bool {
        true
    }

    open spec fn from_spec(r: Port1Ctrl1) -> State {
        State::Port1Ctrl1(r)
    }
}

impl core::convert::TryFrom<State> for Port1Ctrl1 {
    type Error = InvalidAddress;

    fn try_from(s: State) -> (r: Result<Port1Ctrl1, InvalidAddress>) {
        match s {
            State::Port1Ctrl1(r) => Ok(r),
            _ => Err(InvalidAddress),
        }
    }
}

impl vstd::std_specs::convert::TryFromSpecImpl<State> for Port1Ctrl1 {
    open spec fn obeys_try_from_spec() -> bool {
        true
    }

    open spec fn try_from_spec(s: State) -> Result<Port1Ctrl1, InvalidAddress> {
        match s {
            State::Port1Ctrl1(r) => Ok(r),
            _ => Err(InvalidAddress),
        }
    }
}

impl Port1Ctrl1 {
    /// Provides read access to the individual fields of the register.
    pub fn read(&self) -> (r: R<Port1Ctrl1>)
        ensures
            r.0 == *self,
    {
        R(*self)
    }

    /// Provides write access to the individual fields of the register.
    pub fn write(self) -> (w: W<Port1Ctrl1>)
        ensures
            w.0 == self,
    {
        W(self)
    }
}

impl R<Port1Ctrl1> {
    /// Read access to the `sniffer_port` field.
    pub fn sniffer_port(&self) -> (f: BitR)
        ensures
            f.bit == (self.0@ & 0x80 != 0),
    {
        BitR { bit: self.0.bits & 0x80 != 0 }
    }

    /// Read access to the `receive_sniff` field.
    pub fn receive_sniff(&self) -> (f: BitR)
        ensures
            f.bit == (self.0@ & 0x40 != 0),
    {
        BitR { bit: self.0.bits & 0x40 != 0 }
    }

    /// Read access to the `transmit_sniff` field.
    pub fn transmit_sniff(&self) -> (f: BitR)
        ensures
            f.bit == (self.0@ & 0x20 != 0),
    {
        BitR { bit: self.0.bits & 0x20 != 0 }
    }

    /// Read access to the `double_tag` field.
    pub fn double_tag(&self) -> (f: BitR)
        ensures
            f.bit == (self.0@ & 0x10 != 0),
    {
        BitR { bit: self.0.bits & 0x10 != 0 }
    }

    /// Read access to the `user_priority_ceiling` field.
    pub fn user_priority_ceiling(&self) -> (f: BitR)
        ensures
            f.bit == (self.0@ & 0x08 != 0),
    {
        BitR { bit: self.0.bits & 0x08 != 0 }
    }

    /// Read access to the `port_vlan_membership` field.
    pub fn port_vlan_membership(&self) -> (f: BitsR<u8>)
        ensures
            f.bits == load8(self.0@, 0x07, 0),
    {
        BitsR { bits: (self.0.bits & 0x07) >> 0u8 }
    }
}

impl W<Port1Ctrl1> {
    /// Write access to the `sniffer_port` field.
    pub fn sniffer_port(self) -> (f: BitW<Port1Ctrl1>)
        ensures
            f.w == self,
            f.mask == 0x80,
    {
        BitW { w: self, mask: 0x80 }
    }

    /// Write access to the `receive_sniff` field.
    pub fn receive_sniff(self) -> (f: BitW<Port1Ctrl1>)
        ensures
            f.w == self,
            f.mask == 0x40,
    {
        BitW { w: self, mask: 0x40 }
    }

    /// Write access to the `transmit_sniff` field.
    pub fn transmit_sniff(self) -> (f: BitW<Port1Ctrl1>)
        ensures
            f.w == self,
            f.mask == 0x20,
    {
        BitW { w: self, mask: 0x20 }
    }

    /// Write access to the `double_tag` field.
    pub fn double_tag(self) -> (f: BitW<Port1Ctrl1>)
        ensures
            f.w == self,
            f.mask == 0x10,
    {
        BitW { w: self, mask: 0x10 }
    }

    /// Write access to the `user_priority_ceiling` field.
    pub fn user_priority_ceiling(self) -> (f: BitW<Port1Ctrl1>)
        ensures
            f.w == self,
            f.mask == 0x08,
    {
        BitW { w: self, mask: 0x08 }
    }

    /// Write access to the `port_vlan_membership` field.
    pub fn port_vlan_membership(self) -> (f: BitsW<Port1Ctrl1>)
        ensures
            f.w == self,
            f.mask == 0x07,
            f.shift == 0,
    {
        BitsW { w: self, mask: 0x07, shift: 0 }
    }
}

/// The `Port1Ctrl2` register, at address `0x12`.
#[derive(Clone, Copy, Debug, PartialEq, Eq, Structural, Hash)]
pub struct Port1Ctrl2 {
    bits: u8,
}

impl View for Port1Ctrl2 {
    type V = u8;

    closed spec fn view(&self) -> u8 {
        self.bits
    }
}

impl Register for Port1Ctrl2 {
    open spec fn spec_address() -> Address {
        Address::Port1Ctrl2
    }

    closed spec fn spec_from_bits(bits: u8) -> Port1Ctrl2 {
        Port1Ctrl2 { bits }
    }

    proof fn lemma_from_bits(bits: u8) {
    }

    fn address() -> (a: Address) {
        Address::Port1Ctrl2
    }

    fn from_bits(bits: u8) -> (r: Port1Ctrl2) {
        Port1Ctrl2 { bits }
    }

    fn to_bits(&self) -> (b: u8) {
        self.bits
    }
}

impl Default for Port1Ctrl2 {
    fn default() -> (r: Port1Ctrl2)
        ensures
            r@ == default_bits(Address::Port1Ctrl2),
    {
        Port1Ctrl2 { bits: 0x06 }
    }
}

impl From<u8> for Port1Ctrl2 {
    fn from(bits: u8) -> (r: Port1Ctrl2) {
        Port1Ctrl2 { bits }
    }
}

impl vstd::std_specs::convert::FromSpecImpl<u8> for Port1Ctrl2 {
    open spec fn obeys_from_spec() -> bool {
        true
    }

    open spec fn from_spec(bits: u8) -> Port1Ctrl2 {
        <Port1Ctrl2 as Register>::spec_from_bits(bits)
    }
}

impl From<Port1Ctrl2> for u8 {
    fn from(r: Port1Ctrl2) -> (bits: u8) {
        r.bits
    }
}

impl vstd::std_specs::convert::FromSpecImpl<Port1Ctrl2> for u8 {
    open spec fn obeys_from_spec() -> bool {
        true
    }

    open spec fn from_spec(r: Port1Ctrl2) -> u8 {
        r@
    }
}

impl From<Port1Ctrl2> for State {
    fn from(r: Port1Ctrl2) -> (s: State) {
        State::Port1Ctrl2(r)
    }
}

impl vstd::std_specs::convert::FromSpecImpl<Port1Ctrl2> for State {
    open spec fn obeys_from_spec() -> bool {
        true
    }

    open spec fn from_spec(r: Port1Ctrl2) -> State {
        State::Port1Ctrl2(r)
    }
}

impl core::convert::TryFrom<State> for Port1Ctrl2 {
    type Error = InvalidAddress;

    fn try_from(s: State) -> (r: Result<Port1Ctrl2, InvalidAddress>) {
        match s {
            State::Port1Ctrl2(r) => Ok(r),
            _ => Err(InvalidAddress),
        }
    }
}

impl vstd::std_specs::convert::TryFromSpecImpl<State> for Port1Ctrl2 {
    open spec fn obeys_try_from_spec() -> bool {
        true
    }

    open spec fn try_from_spec(s: State) -> Result<Port1Ctrl2, InvalidAddress> {
        match s {
            State::Port1Ctrl2(r) => Ok(r),
            _ => Err(InvalidAddress),
        }
    }
}

impl Port1Ctrl2 {
    /// Provides read access to the individual fields of the register.
    pub fn read(&self) -> (r: R<Port1Ctrl2>)
        ensures
            r.0 == *self,
    {
        R(*self)
    }

    /// Provides write access to the individual fields of the register.
    pub fn write(self) -> (w: W<Port1Ctrl2>)
        ensures
            w.0 == self,
    {
        W(self)
    }
}

impl R<Port1Ctrl2> {
    /// Read access to the `enable_2_queue_split_tx` field.
    pub fn enable_2_queue_split_tx(&self) -> (f: BitR)
        ensures
            f.bit == (self.0@ & 0x80 != 0),
    {
        BitR { bit: self.0.bits & 0x80 != 0 }
    }

    /// Read access to the `ingress_vlan_filtering` field.
    pub fn ingress_vlan_filtering(&self) -> (f: BitR)
        ensures
            f.bit == (self.0@ & 0x40 != 0),
    {
        BitR { bit: self.0.bits & 0x40 != 0 }
    }

    /// Read access to the `discard_non_pvid_packets` field.
    pub fn discard_non_pvid_packets(&self) -> (f: BitR)
        ensures
            f.bit == (self.0@ & 0x20 != 0),
    {
        BitR { bit: self.0.bits & 0x20 != 0 }
    }

    /// Read access to the `force_flow_control` field.
    pub fn force_flow_control(&self) -> (f: BitR)
        ensures
            f.bit == (self.0@ & 0x10 != 0),
    {
        BitR { bit: self.0.bits & 0x10 != 0 }
    }

    /// Read access to the `back_pressure` field.
    pub fn back_pressure(&self) -> (f: BitR)
        ensures
            f.bit == (self.0@ & 0x08 != 0),
    {
        BitR { bit: self.0.bits & 0x08 != 0 }
    }

    /// Read access to the `transmit` field.
    pub fn transmit(&self) -> (f: BitR)
        ensures
            f.bit == (self.0@ & 0x04 != 0),
    {
        BitR { bit: self.0.bits & 0x04 != 0 }
    }

    /// Read access to the `receive` field.
    pub fn receive(&self) -> (f: BitR)
        ensures
            f.bit == (self.0@ & 0x02 != 0),
    {
        BitR { bit: self.0.bits & 0x02 != 0 }
    }

    /// Read access to the `learning_disable` field.
    pub fn learning_disable(&self) -> (f: BitR)
        ensures
            f.bit == (self.0@ & 0x01 != 0),
    {
        BitR { bit: self.0.bits & 0x01 != 0 }
    }
}

impl W<Port1Ctrl2> {
    /// Write access to the `enable_2_queue_split_tx` field.
    pub fn enable_2_queue_split_tx(self) -> (f: BitW<Port1Ctrl2>)
        ensures
            f.w == self,
            f.mask == 0x80,
    {
        BitW { w: self, mask: 0x80 }
    }

    /// Write access to the `ingress_vlan_filtering` field.
    pub fn ingress_vlan_filtering(self) -> (f: BitW<Port1Ctrl2>)
        ensures
            f.w == self,
            f.mask == 0x40,
    {
        BitW { w: self, mask: 0x40 }
    }

    /// Write access to the `discard_non_pvid_packets` field.
    pub fn discard_non_pvid_packets(self) -> (f: BitW<Port1Ctrl2>)
        ensures
            f.w == self,
            f.mask == 0x20,
    {
        BitW { w: self, mask: 0x20 }
    }

    /// Write access to the `force_flow_control` field.
    pub fn force_flow_control(self) -> (f: BitW<Port1Ctrl2>)
        ensures
            f.w == self,
            f.mask == 0x10,
    {
        BitW { w: self, mask: 0x10 }
    }

    /// Write access to the `back_pressure` field.
    pub fn back_pressure(self) -> (f: BitW<Port1Ctrl2>)
        ensures
            f.w == self,
            f.mask == 0x08,
    {
        BitW { w: self, mask: 0x08 }
    }

    /// Write access to the `transmit` field.
    pub fn transmit(self) -> (f: BitW<Port1Ctrl2>)
        ensures
            f.w == self,
            f.mask == 0x04,
    {
        BitW { w: self, mask: 0x04 }
    }

    /// Write access to the `receive` field.
    pub fn receive(self) -> (f: BitW<Port1Ctrl2>)
        ensures
            f.w == self,
            f.mask == 0x02,
    {
        BitW { w: self, mask: 0x02 }
    }

    /// Write access to the `learning_disable` field.
    pub fn learning_disable(self) -> (f: BitW<Port1Ctrl2>)
        ensures
            f.w == self,
            f.mask == 0x01,
    {
        BitW { w: self, mask: 0x01 }
    }
}

/// The `Port1Ctrl3` register, at address `0x13`.
#[derive(Clone, Copy, Debug, PartialEq, Eq, Structural, Hash)]
pub struct Port1Ctrl3 {
    bits: u8,
}

impl View for Port1Ctrl3 {
    type V = u8;

    closed spec fn view(&self) -> u8 {
        self.bits
    }
}

impl Register for Port1Ctrl3 {
    open spec fn spec_address() -> Address {
        Address::Port1Ctrl3
    }

    closed spec fn spec_from_bits(bits: u8) -> Port1Ctrl3 {
        Port1Ctrl3 { bits }
    }

    proof fn lemma_from_bits(bits: u8) {
    }

    fn address() -> (a: Address) {
        Address::Port1Ctrl3
    }

    fn from_bits(bits: u8) -> (r: Port1Ctrl3) {
        Port1Ctrl3 { bits }
    }

    fn to_bits(&self) -> (b: u8) {
        self.bits
    }
}

impl Default for Port1Ctrl3 {
    fn default() -> (r: Port1Ctrl3)
        ensures
            r@ == default_bits(Address::Port1Ctrl3),
    {
        Port1Ctrl3 { bits: 0x00 }
    }
}

impl From<u8> for Port1Ctrl3 {
    fn from(bits: u8) -> (r: Port1Ctrl3) {
        Port1Ctrl3 { bits }
    }
}

impl vstd::std_specs::convert::FromSpecImpl<u8> for Port1Ctrl3 {
    open spec fn obeys_from_spec() -> bool {
        true
    }

    open spec fn from_spec(bits: u8) -> Port1Ctrl3 {
        <Port1Ctrl3 as Register>::spec_from_bits(bits)
    }
}

impl From<Port1Ctrl3> for u8 {
    fn from(r: Port1Ctrl3) -> (bits: u8) {
        r.bits
    }
}

impl vstd::std_specs::convert::FromSpecImpl<Port1Ctrl3> for u8 {
    open spec fn obeys_from_spec() -> bool {
        true
    }

    open spec fn from_spec(r: Port1Ctrl3) -> u8 {
        r@
    }
}

impl From<Port1Ctrl3> for State {
    fn from(r: Port1Ctrl3) -> (s: State) {
        State::Port1Ctrl3(r)
    }
}

impl vstd::std_specs::convert::FromSpecImpl<Port1Ctrl3> for State {
    open spec fn obeys_from_spec() -> bool {
        true
    }

    open spec fn from_spec(r: Port1Ctrl3) -> State {
        State::Port1Ctrl3(r)
    }
}

impl core::convert::TryFrom<State> for Port1Ctrl3 {
    type Error = InvalidAddress;

    fn try_from(s: State) -> (r: Result<Port1Ctrl3, InvalidAddress>) {
        match s {
            State::Port1Ctrl3(r) => Ok(r),
            _ => Err(InvalidAddress),
        }
    }
}

impl vstd::std_specs::convert::TryFromSpecImpl<State> for Port1Ctrl3 {
    open spec fn obeys_try_from_spec() -> bool {
        true
    }

    open spec fn try_from_spec(s: State) -> Result<Port1Ctrl3, InvalidAddress> {
        match s {
            State::Port1Ctrl3(r) => Ok(r),
            _ => Err(InvalidAddress),
        }
    }
}

impl Port1Ctrl3 {
    /// Provides read access to the individual fields of the register.
    pub fn read(&self) -> (r: R<Port1Ctrl3>)
        ensures
            r.0 == *self,
    {
        R(*self)
    }

    /// Provides write access to the individual fields of the register.
    pub fn write(self) -> (w: W<Port1Ctrl3>)
        ensures
            w.0 == self,
    {
        W(self)
    }
}

impl R<Port1Ctrl3> {
    /// Read access to the `default_tag_15_8` field.
    pub fn default_tag_15_8(&self) -> (f: BitsR<u8>)
        ensures
            f.bits == load8(self.0@, 0xff, 0),
    {
        BitsR { bits: (self.0.bits & 0xff) >> 0u8 }
    }
}

impl W<Port1Ctrl3> {
    /// Write access to the `default_tag_15_8` field.
    pub fn default_tag_15_8(self) -> (f: BitsW<Port1Ctrl3>)
        ensures
            f.w == self,
            f.mask == 0xff,
            f.shift == 0,
    {
        BitsW { w: self, mask: 0xff, shift: 0 }
    }
}

/// The `Port1Ctrl4` register, at address `0x14`.
#[derive(Clone, Copy, Debug, PartialEq, Eq, Structural, Hash)]
pub struct Port1Ctrl4 {
    bits: u8,
}

impl View for Port1Ctrl4 {
    type V = u8;

    closed spec fn view(&self) -> u8 {
        self.bits
    }
}

impl Register for Port1Ctrl4 {
    open spec fn spec_address() -> Address {
        Address::Port1Ctrl4
    }

    closed spec fn spec_from_bits(bits: u8) -> Port1Ctrl4 {
        Port1Ctrl4 { bits }
    }

    proof fn lemma_from_bits(bits: u8) {
    }

    fn address() -> (a: Address) {
        Address::Port1Ctrl4
    }

    fn from_bits(bits: u8) -> (r: Port1Ctrl4) {
        Port1Ctrl4 { bits }
    }

    fn to_bits(&self) -> (b: u8) {
        self.bits
    }
}

impl Default for Port1Ctrl4 {
    fn default() -> (r: Port1Ctrl4)
        ensures
            r@ == default_bits(Address::Port1Ctrl4),
    {
        Port1Ctrl4 { bits: 0x01 }
    }
}

impl From<u8> for Port1Ctrl4 {
    fn from(bits: u8) -> (r: Port1Ctrl4) {
        Port1Ctrl4 { bits }
    }
}

impl vstd::std_specs::convert::FromSpecImpl<u8> for Port1Ctrl4 {
    open spec fn obeys_from_spec() -> bool {
        true
    }

    open spec fn from_spec(bits: u8) -> Port1Ctrl4 {
        <Port1Ctrl4 as Register>::spec_from_bits(bits)
    }
}

impl From<Port1Ctrl4> for u8 {
    fn from(r: Port1Ctrl4) -> (bits: u8) {
        r.bits
    }
}

impl vstd::std_specs::convert::FromSpecImpl<Port1Ctrl4> for u8 {
    open spec fn obeys_from_spec() -> bool {
        true
    }

    open spec fn from_spec(r: Port1Ctrl4) -> u8 {
        r@
    }
}

impl From<Port1Ctrl4> for State {
    fn from(r: Port1Ctrl4) -> (s: State) {
        State::Port1Ctrl4(r)
    }
}

impl vstd::std_specs::convert::FromSpecImpl<Port1Ctrl4> for State {
    open spec fn obeys_from_spec() -> bool {
        true
    }

    open spec fn from_spec(r: Port1Ctrl4) -> State {
        State::Port1Ctrl4(r)
    }
}

impl core::convert::TryFrom<State> for Port1Ctrl4 {
    type Error = InvalidAddress;

    fn try_from(s: State) -> (r: Result<Port1Ctrl4, InvalidAddress>) {
        match s {
            State::Port1Ctrl4(r) => Ok(r),
            _ => Err(InvalidAddress),
        }
    }
}

impl vstd::std_specs::convert::TryFromSpecImpl<State> for Port1Ctrl4 {
    open spec fn obeys_try_from_spec() -> bool {
        true
    }

    open spec fn try_from_spec(s: State) -> Result<Port1Ctrl4, InvalidAddress> {
        match s {
            State::Port1Ctrl4(r) => Ok(r),
            _ => Err(InvalidAddress),
        }
    }
}

impl Port1Ctrl4 {
    /// Provides read access to the individual fields of the register.
    pub fn read(&self) -> (r: R<Port1Ctrl4>)
        ensures
            r.0 == *self,
    {
        R(*self)
    }

    /// Provides write access to the individual fields of the register.
    pub fn write(self) -> (w: W<Port1Ctrl4>)
        ensures
            w.0 == self,
    {
        W(self)
    }
}

impl R<Port1Ctrl4> {
    /// Read access to the `default_tag_7_0` field.
    pub fn default_tag_7_0(&self) -> (f: BitsR<u8>)
        ensures
            f.bits == load8(self.0@, 0xff, 0),
    {
        BitsR { bits: (self.0.bits & 0xff) >> 0u8 }
    }
}

impl W<Port1Ctrl4> {
    /// Write access to the `default_tag_7_0` field.
    pub fn default_tag_7_0(self) -> (f: BitsW<Port1Ctrl4>)
        ensures
            f.w == self,
            f.mask == 0xff,
            f.shift == 0,
    {
        BitsW { w: self, mask: 0xff, shift: 0 }
    }
}

/// The `Port1Ctrl5` register, at address `0x15`.
#[derive(Clone, Copy, Debug, PartialEq, Eq, Structural, Hash)]
pub struct Port1Ctrl5 {
    bits: u8,
}

impl View for Port1Ctrl5 {
    type V = u8;

    closed spec fn view(&self) -> u8 {
        self.bits
    }
}

impl Register for Port1Ctrl5 {
    open spec fn spec_address() -> Address {
        Address::Port1Ctrl5
    }

    closed spec fn spec_from_bits(bits: u8) -> Port1Ctrl5 {
        Port1Ctrl5 { bits }
    }

    proof fn lemma_from_bits(bits: u8) {
    }

    fn address() -> (a: Address) {
        Address::Port1Ctrl5
    }

    fn from_bits(bits: u8) -> (r: Port1Ctrl5) {
        Port1Ctrl5 { bits }
    }

    fn to_bits(&self) -> (b: u8) {
        self.bits
    }
}

impl Default for Port1Ctrl5 {
    fn default() -> (r: Port1Ctrl5)
        ensures
            r@ == default_bits(Address::Port1Ctrl5),
    {
        Port1Ctrl5 { bits: 0x00 }
    }
}

impl From<u8> for Port1Ctrl5 {
    fn from(bits: u8) -> (r: Port1Ctrl5) {
        Port1Ctrl5 { bits }
    }
}

impl vstd::std_specs::convert::FromSpecImpl<u8> for Port1Ctrl5 {
    open spec fn obeys_from_spec() -> bool {
        true
    }

    open spec fn from_spec(bits: u8) -> Port1Ctrl5 {
        <Port1Ctrl5 as Register>::spec_from_bits(bits)
    }
}

impl From<Port1Ctrl5> for u8 {
    fn from(r: Port1Ctrl5) -> (bits: u8) {
        r.bits
    }
}

impl vstd::std_specs::convert::FromSpecImpl<Port1Ctrl5> for u8 {
    open spec fn obeys_from_spec() -> bool {
        true
    }

    open spec fn from_spec(r: Port1Ctrl5) -> u8 {
        r@
    }
}

impl From<Port1Ctrl5> for State {
    fn from(r: Port1Ctrl5) -> (s: State) {
        State::Port1Ctrl5(r)
    }
}

impl vstd::std_specs::convert::FromSpecImpl<Port1Ctrl5> for State {
    open spec fn obeys_from_spec() -> bool {
        true
    }

    open spec fn from_spec(r: Port1Ctrl5) -> State {
        State::Port1Ctrl5(r)
    }
}

impl core::convert::TryFrom<State> for Port1Ctrl5 {
    type Error = InvalidAddress;

    fn try_from(s: State) -> (r: Result<Port1Ctrl5, InvalidAddress>) {
        match s {
            State::Port1Ctrl5(r) => Ok(r),
            _ => Err(InvalidAddress),
        }
    }
}

impl vstd::std_specs::convert::TryFromSpecImpl<State> for Port1Ctrl5 {
    open spec fn obeys_try_from_spec() -> bool {
        true
    }

    open spec fn try_from_spec(s: State) -> Result<Port1Ctrl5, InvalidAddress> {
        match s {
            State::Port1Ctrl5(r) => Ok(r),
            _ => Err(InvalidAddress),
        }
    }
}

impl Port1Ctrl5 {
    /// Provides read access to the individual fields of the register.
    pub fn read(&self) -> (r: R<Port1Ctrl5>)
        ensures
            r.0 == *self,
    {
        R(*self)
    }

    /// Provides write access to the individual fields of the register.
    pub fn write(self) -> (w: W<Port1Ctrl5>)
        ensures
            w.0 == self,
    {
        W(self)
    }
}

impl R<Port1Ctrl5> {
    /// Read access to the `port3_mii_mode_selection` field.
    pub fn port3_mii_mode_selection(&self) -> (f: BitR)
        ensures
            f.bit == (self.0@ & 0x80 != 0),
    {
        BitR { bit: self.0.bits & 0x80 != 0 }
    }

    /// Read access to the `self_addr_filtering_enable_maca1` field.
    pub fn self_addr_filtering_enable_maca1(&self) -> (f: BitR)
        ensures
            f.bit == (self.0@ & 0x40 != 0),
    {
        BitR { bit: self.0.bits & 0x40 != 0 }
    }

    /// Read access to the `self_addr_filtering_enable_maca2` field.
    pub fn self_addr_filtering_enable_maca2(&self) -> (f: BitR)
        ensures
            f.bit == (self.0@ & 0x20 != 0),
    {
        BitR { bit: self.0.bits & 0x20 != 0 }
    }

    /// Read access to the `dropped_ingress_tagged_frame` field.
    pub fn dropped_ingress_tagged_frame(&self) -> (f: BitR)
        ensures
            f.bit == (self.0@ & 0x10 != 0),
    {
        BitR { bit: self.0.bits & 0x10 != 0 }
    }

    /// Read access to the `limit_mode` field.
    pub fn limit_mode(&self) -> (f: BitsR<u8>)
        ensures
            f.bits == load8(self.0@, 0x0c, 2),
    {
        BitsR { bits: (self.0.bits & 0x0c) >> 2u8 }
    }

    /// Read access to the `count_ifg` field.
    pub fn count_ifg(&self) -> (f: BitR)
        ensures
            f.bit == (self.0@ & 0x02 != 0),
    {
        BitR { bit: self.0.bits & 0x02 != 0 }
    }

    /// Read access to the `count_pre` field.
    pub fn count_pre(&self) -> (f: BitR)
        ensures
            f.bit == (self.0@ & 0x01 != 0),
    {
        BitR { bit: self.0.bits & 0x01 != 0 }
    }
}

impl W<Port1Ctrl5> {
    /// Write access to the `port3_mii_mode_selection` field.
    pub fn port3_mii_mode_selection(self) -> (f: BitW<Port1Ctrl5>)
        ensures
            f.w == self,
            f.mask == 0x80,
    {
        BitW { w: self, mask: 0x80 }
    }

    /// Write access to the `self_addr_filtering_enable_maca1` field.
    pub fn self_addr_filtering_enable_maca1(self) -> (f: BitW<Port1Ctrl5>)
        ensures
            f.w == self,
            f.mask == 0x40,
    {
        BitW { w: self, mask: 0x40 }
    }

    /// Write access to the `self_addr_filtering_enable_maca2` field.
    pub fn self_addr_filtering_enable_maca2(self) -> (f: BitW<Port1Ctrl5>)
        ensures
            f.w == self,
            f.mask == 0x20,
    {
        BitW { w: self, mask: 0x20 }
    }

    /// Write access to the `dropped_ingress_tagged_frame` field.
    pub fn dropped_ingress_tagged_frame(self) -> (f: BitW<Port1Ctrl5>)
        ensures
            f.w == self,
            f.mask == 0x10,
    {
        BitW { w: self, mask: 0x10 }
    }

    /// Write access to the `limit_mode` field.
    pub fn limit_mode(self) -> (f: BitsW<Port1Ctrl5>)
        ensures
            f.w == self,
            f.mask == 0x0c,
            f.shift == 2,
    {
        BitsW { w: self, mask: 0x0c, shift: 2 }
    }

    /// Write access to the `count_ifg` field.
    pub fn count_ifg(self) -> (f: BitW<Port1Ctrl5>)
        ensures
            f.w == self,
            f.mask == 0x02,
    {
        BitW { w: self, mask: 0x02 }
    }

    /// Write access to the `count_pre` field.
    pub fn count_pre(self) -> (f: BitW<Port1Ctrl5>)
        ensures
            f.w == self,
            f.mask == 0x01,
    {
        BitW { w: self, mask: 0x01 }
    }
}

/// The `Port1Q0IngressRateLimit` register, at address `0x16`.
#[derive(Clone, Copy, Debug, PartialEq, Eq, Structural, Hash)]
pub struct Port1Q0IngressRateLimit {
    bits: u8,
}

impl View for Port1Q0IngressRateLimit {
    type V = u8;

    closed spec fn view(&self) -> u8 {
        self.bits
    }
}

impl Register for Port1Q0IngressRateLimit {
    open spec fn spec_address() -> Address {
        Address::Port1Q0IngressRateLimit
    }

    closed spec fn spec_from_bits(bits: u8) -> Port1Q0IngressRateLimit {
        Port1Q0IngressRateLimit { bits }
    }

    proof fn lemma_from_bits(bits: u8) {
    }

    fn address() -> (a: Address) {
        Address::Port1Q0IngressRateLimit
    }

    fn from_bits(bits: u8) -> (r: Port1Q0IngressRateLimit) {
        Port1Q0IngressRateLimit { bits }
    }

    fn to_bits(&self) -> (b: u8) {
        self.bits
    }
}

impl Default for Port1Q0IngressRateLimit {
    fn default() -> (r: Port1Q0IngressRateLimit)
        ensures
            r@ == default_bits(Address::Port1Q0IngressRateLimit),
    {
        Port1Q0IngressRateLimit { bits: 0x00 }
    }
}

impl From<u8> for Port1Q0IngressRateLimit {
    fn from(bits: u8) -> (r: Port1Q0IngressRateLimit) {
        Port1Q0IngressRateLimit { bits }
    }
}

impl vstd::std_specs::convert::FromSpecImpl<u8> for Port1Q0IngressRateLimit {
    open spec fn obeys_from_spec() -> bool {
        true
    }

    open spec fn from_spec(bits: u8) -> Port1Q0IngressRateLimit {
        <Port1Q0IngressRateLimit as Register>::spec_from_bits(bits)
    }
}

impl From<Port1Q0IngressRateLimit> for u8 {
    fn from(r: Port1Q0IngressRateLimit) -> (bits: u8) {
        r.bits
    }
}

impl vstd::std_specs::convert::FromSpecImpl<Port1Q0IngressRateLimit> for u8 {
    open spec fn obeys_from_spec() -> bool {
        true
    }

    open spec fn from_spec(r: Port1Q0IngressRateLimit) -> u8 {
        r@
    }
}

impl From<Port1Q0IngressRateLimit> for State {
    fn from(r: Port1Q0IngressRateLimit) -> (s: State) {
        State::Port1Q0IngressRateLimit(r)
    }
}

impl vstd::std_specs::convert::FromSpecImpl<Port1Q0IngressRateLimit> for State {
    open spec fn obeys_from_spec() -> bool {
        true
    }

    open spec fn from_spec(r: Port1Q0IngressRateLimit) -> State {
        State::Port1Q0IngressRateLimit(r)
    }
}

impl core::convert::TryFrom<State> for Port1Q0IngressRateLimit {
    type Error = InvalidAddress;

    fn try_from(s: State) -> (r: Result<Port1Q0IngressRateLimit, InvalidAddress>) {
        match s {
            State::Port1Q0IngressRateLimit(r) => Ok(r),
            _ => Err(InvalidAddress),
        }
    }
}

impl vstd::std_specs::convert::TryFromSpecImpl<State> for Port1Q0IngressRateLimit {
    open spec fn obeys_try_from_spec() -> bool {
        true
    }

    open spec fn try_from_spec(s: State) -> Result<Port1Q0IngressRateLimit, InvalidAddress> {
        match s {
            State::Port1Q0IngressRateLimit(r) => Ok(r),
            _ => Err(InvalidAddress),
        }
    }
}

impl Port1Q0IngressRateLimit {
    /// Provides read access to the individual fields of the register.
    pub fn read(&self) -> (r: R<Port1Q0IngressRateLimit>)
        ensures
            r.0 == *self,
    {
        R(*self)
    }

    /// Provides write access to the individual fields of the register.
    pub fn write(self) -> (w: W<Port1Q0IngressRateLimit>)
        ensures
            w.0 == self,
    {
        W(self)
    }
}

impl R<Port1Q0IngressRateLimit> {
    /// Read access to the `limit` field.
    pub fn limit(&self) -> (f: BitsR<u8>)
        ensures
            f.bits == load8(self.0@, 0x7f, 0),
    {
        BitsR { bits: (self.0.bits & 0x7f) >> 0u8 }
    }
}

impl W<Port1Q0IngressRateLimit> {
    /// Write access to the `limit` field.
    pub fn limit(self) -> (f: BitsW<Port1Q0IngressRateLimit>)
        ensures
            f.w == self,
            f.mask == 0x7f,
            f.shift == 0,
    {
        BitsW { w: self, mask: 0x7f, shift: 0 }
    }
}

/// The `Port1Q1IngressRateLimit` register, at address `0x17`.
#[derive(Clone, Copy, Debug, PartialEq, Eq, Structural, Hash)]
pub struct Port1Q1IngressRateLimit {
    bits: u8,
}

impl View for Port1Q1IngressRateLimit {
    type V = u8;

    closed spec fn view(&self) -> u8 {
        self.bits
    }
}

impl Register for Port1Q1IngressRateLimit {
    open spec fn spec_address() -> Address {
        Address::Port1Q1IngressRateLimit
    }

    closed spec fn spec_from_bits(bits: u8) -> Port1Q1IngressRateLimit {
        Port1Q1IngressRateLimit { bits }
    }

    proof fn lemma_from_bits(bits: u8) {
    }

    fn address() -> (a: Address) {
        Address::Port1Q1IngressRateLimit
    }

    fn from_bits(bits: u8) -> (r: Port1Q1IngressRateLimit) {
        Port1Q1IngressRateLimit { bits }
    }

    fn to_bits(&self) -> (b: u8) {
        self.bits
    }
}

impl Default for Port1Q1IngressRateLimit {
    fn default() -> (r: Port1Q1IngressRateLimit)
        ensures
            r@ == default_bits(Address::Port1Q1IngressRateLimit),
    {
        Port1Q1IngressRateLimit { bits: 0x00 }
    }
}

impl From<u8> for Port1Q1IngressRateLimit {
    fn from(bits: u8) -> (r: Port1Q1IngressRateLimit) {
        Port1Q1IngressRateLimit { bits }
    }
}

impl vstd::std_specs::convert::FromSpecImpl<u8> for Port1Q1IngressRateLimit {
    open spec fn obeys_from_spec() -> bool {
        true
    }

    open spec fn from_spec(bits: u8) -> Port1Q1IngressRateLimit {
        <Port1Q1IngressRateLimit as Register>::spec_from_bits(bits)
    }
}

impl From<Port1Q1IngressRateLimit> for u8 {
    fn from(r: Port1Q1IngressRateLimit) -> (bits: u8) {
        r.bits
    }
}

impl vstd::std_specs::convert::FromSpecImpl<Port1Q1IngressRateLimit> for u8 {
    open spec fn obeys_from_spec() -> bool {
        true
    }

    open spec fn from_spec(r: Port1Q1IngressRateLimit) -> u8 {
        r@
    }
}

impl From<Port1Q1IngressRateLimit> for State {
    fn from(r: Port1Q1IngressRateLimit) -> (s: State) {
        State::Port1Q1IngressRateLimit(r)
    }
}

impl vstd::std_specs::convert::FromSpecImpl<Port1Q1IngressRateLimit> for State {
    open spec fn obeys_from_spec() -> bool {
        true
    }

    open spec fn from_spec(r: Port1Q1IngressRateLimit) -> State {
        State::Port1Q1IngressRateLimit(r)
    }
}

impl core::convert::TryFrom<State> for Port1Q1IngressRateLimit {
    type Error = InvalidAddress;

    fn try_from(s: State) -> (r: Result<Port1Q1IngressRateLimit, InvalidAddress>) {
        match s {
            State::Port1Q1IngressRateLimit(r) => Ok(r),
            _ => Err(InvalidAddress),
        }
    }
}

impl vstd::std_specs::convert::TryFromSpecImpl<State> for Port1Q1IngressRateLimit {
    open spec fn obeys_try_from_spec() -> bool {
        true
    }

    open spec fn try_from_spec(s: State) -> Result<Port1Q1IngressRateLimit, InvalidAddress> {
        match s {
            State::Port1Q1IngressRateLimit(r) => Ok(r),
            _ => Err(InvalidAddress),
        }
    }
}

impl Port1Q1IngressRateLimit {
    /// Provides read access to the individual fields of the register.
    pub fn read(&self) -> (r: R<Port1Q1IngressRateLimit>)
        ensures
            r.0 == *self,
    {
        R(*self)
    }

    /// Provides write access to the individual fields of the register.
    pub fn write(self) -> (w: W<Port1Q1IngressRateLimit>)
        ensures
            w.0 == self,
    {
        W(self)
    }
}

impl R<Port1Q1IngressRateLimit> {
    /// Read access to the `limit` field.
    pub fn limit(&self) -> (f: BitsR<u8>)
        ensures
            f.bits == load8(self.0@, 0x7f, 0),
    {
        BitsR { bits: (self.0.bits & 0x7f) >> 0u8 }
    }
}

impl W<Port1Q1IngressRateLimit> {
    /// Write access to the `limit` field.
    pub fn limit(self) -> (f: BitsW<Port1Q1IngressRateLimit>)
        ensures
            f.w == self,
            f.mask == 0x7f,
            f.shift == 0,
    {
        BitsW { w: self, mask: 0x7f, shift: 0 }
    }
}

/// The `Port1Q2IngressRateLimit` register, at address `0x18`.
#[derive(Clone, Copy, Debug, PartialEq, Eq, Structural, Hash)]
pub struct Port1Q2IngressRateLimit {
    bits: u8,
}

impl View for Port1Q2IngressRateLimit {
    type V = u8;

    closed spec fn view(&self) -> u8 {
        self.bits
    }
}

impl Register for Port1Q2IngressRateLimit {
    open spec fn spec_address() -> Address {
        Address::Port1Q2IngressRateLimit
    }

    closed spec fn spec_from_bits(bits: u8) -> Port1Q2IngressRateLimit {
        Port1Q2IngressRateLimit { bits }
    }

    proof fn lemma_from_bits(bits: u8) {
    }

    fn address() -> (a: Address) {
        Address::Port1Q2IngressRateLimit
    }

    fn from_bits(bits: u8) -> (r: Port1Q2IngressRateLimit) {
        Port1Q2IngressRateLimit { bits }
    }

    fn to_bits(&self) -> (b: u8) {
        self.bits
    }
}

impl Default for Port1Q2IngressRateLimit {
    fn default() -> (r: Port1Q2IngressRateLimit)
        ensures
            r@ == default_bits(Address::Port1Q2IngressRateLimit),
    {
        Port1Q2IngressRateLimit { bits: 0x00 }
    }
}

impl From<u8> for Port1Q2IngressRateLimit {
    fn from(bits: u8) -> (r: Port1Q2IngressRateLimit) {
        Port1Q2IngressRateLimit { bits }
    }
}

impl vstd::std_specs::convert::FromSpecImpl<u8> for Port1Q2IngressRateLimit {
    open spec fn obeys_from_spec() -> bool {
        true
    }

    open spec fn from_spec(bits: u8) -> Port1Q2IngressRateLimit {
        <Port1Q2IngressRateLimit as Register>::spec_from_bits(bits)
    }
}

impl From<Port1Q2IngressRateLimit> for u8 {
    fn from(r: Port1Q2IngressRateLimit) -> (bits: u8) {
        r.bits
    }
}

impl vstd::std_specs::convert::FromSpecImpl<Port1Q2IngressRateLimit> for u8 {
    open spec fn obeys_from_spec() -> bool {
        true
    }

    open spec fn from_spec(r: Port1Q2IngressRateLimit) -> u8 {
        r@
    }
}

impl From<Port1Q2IngressRateLimit> for State {
    fn from(r: Port1Q2IngressRateLimit) -> (s: State) {
        State::Port1Q2IngressRateLimit(r)
    }
}

impl vstd::std_specs::convert::FromSpecImpl<Port1Q2IngressRateLimit> for State {
    open spec fn obeys_from_spec() -> bool {
        true
    }

    open spec fn from_spec(r: Port1Q2IngressRateLimit) -> State {
        State::Port1Q2IngressRateLimit(r)
    }
}

impl core::convert::TryFrom<State> for Port1Q2IngressRateLimit {
    type Error = InvalidAddress;

    fn try_from(s: State) -> (r: Result<Port1Q2IngressRateLimit, InvalidAddress>) {
        match s {
            State::Port1Q2IngressRateLimit(r) => Ok(r),
            _ => Err(InvalidAddress),
        }
    }
}

impl vstd::std_specs::convert::TryFromSpecImpl<State> for Port1Q2IngressRateLimit {
    open spec fn obeys_try_from_spec() -> bool {
        true
    }

    open spec fn try_from_spec(s: State) -> Result<Port1Q2IngressRateLimit, InvalidAddress> {
        match s {
            State::Port1Q2IngressRateLimit(r) => Ok(r),
            _ => Err(InvalidAddress),
        }
    }
}

impl Port1Q2IngressRateLimit {
    /// Provides read access to the individual fields of the register.
    pub fn read(&self) -> (r: R<Port1Q2IngressRateLimit>)
        ensures
            r.0 == *self,
    {
        R(*self)
    }

    /// Provides write access to the individual fields of the register.
    pub fn write(self) -> (w: W<Port1Q2IngressRateLimit>)
        ensures
            w.0 == self,
    {
        W(self)
    }
}

impl R<Port1Q2IngressRateLimit> {
    /// Read access to the `limit` field.
    pub fn limit(&self) -> (f: BitsR<u8>)
        ensures
            f.bits == load8(self.0@, 0x7f, 0),
    {
        BitsR { bits: (self.0.bits & 0x7f) >> 0u8 }
    }
}

impl W<Port1Q2IngressRateLimit> {
    /// Write access to the `limit` field.
    pub fn limit(self) -> (f: BitsW<Port1Q2IngressRateLimit>)
        ensures
            f.w == self,
            f.mask == 0x7f,
            f.shift == 0,
    {
        BitsW { w: self, mask: 0x7f, shift: 0 }
    }
}

/// The `Port1Q3IngressRateLimit` register, at address `0x19`.
#[derive(Clone, Copy, Debug, PartialEq, Eq, Structural, Hash)]
pub struct Port1Q3IngressRateLimit {
    bits: u8,
}

impl View for Port1Q3IngressRateLimit {
    type V = u8;

    closed spec fn view(&self) -> u8 {
        self.bits
    }
}

impl Register for Port1Q3IngressRateLimit {
    open spec fn spec_address() -> Address {
        Address::Port1Q3IngressRateLimit
    }

    closed spec fn spec_from_bits(bits: u8) -> Port1Q3IngressRateLimit {
        Port1Q3IngressRateLimit { bits }
    }

    proof fn lemma_from_bits(bits: u8) {
    }

    fn address() -> (a: Address) {
        Address::Port1Q3IngressRateLimit
    }

    fn from_bits(bits: u8) -> (r: Port1Q3IngressRateLimit) {
        Port1Q3IngressRateLimit { bits }
    }

    fn to_bits(&self) -> (b: u8) {
        self.bits
    }
}

impl Default for Port1Q3IngressRateLimit {
    fn default() -> (r: Port1Q3IngressRateLimit)
        ensures
            r@ == default_bits(Address::Port1Q3IngressRateLimit),
    {
        Port1Q3IngressRateLimit { bits: 0x00 }
    }
}

impl From<u8> for Port1Q3IngressRateLimit {
    fn from(bits: u8) -> (r: Port1Q3IngressRateLimit) {
        Port1Q3IngressRateLimit { bits }
    }
}

impl vstd::std_specs::convert::FromSpecImpl<u8> for Port1Q3IngressRateLimit {
    open spec fn obeys_from_spec() -> bool {
        true
    }

    open spec fn from_spec(bits: u8) -> Port1Q3IngressRateLimit {
        <Port1Q3IngressRateLimit as Register>::spec_from_bits(bits)
    }
}

impl From<Port1Q3IngressRateLimit> for u8 {
    fn from(r: Port1Q3IngressRateLimit) -> (bits: u8) {
        r.bits
    }
}

impl vstd::std_specs::convert::FromSpecImpl<Port1Q3IngressRateLimit> for u8 {
    open spec fn obeys_from_spec() -> bool {
        true
    }

    open spec fn from_spec(r: Port1Q3IngressRateLimit) -> u8 {
        r@
    }
}

impl From<Port1Q3IngressRateLimit> for State {
    fn from(r: Port1Q3IngressRateLimit) -> (s: State) {
        State::Port1Q3IngressRateLimit(r)
    }
}

impl vstd::std_specs::convert::FromSpecImpl<Port1Q3IngressRateLimit> for State {
    open spec fn obeys_from_spec() -> bool {
        true
    }

    open spec fn from_spec(r: Port1Q3IngressRateLimit) -> State {
        State::Port1Q3IngressRateLimit(r)
    }
}

impl core::convert::TryFrom<State> for Port1Q3IngressRateLimit {
    type Error = InvalidAddress;

    fn try_from(s: State) -> (r: Result<Port1Q3IngressRateLimit, InvalidAddress>) {
        match s {
            State::Port1Q3IngressRateLimit(r) => Ok(r),
            _ => Err(InvalidAddress),
        }
    }
}

impl vstd::std_specs::convert::TryFromSpecImpl<State> for Port1Q3IngressRateLimit {
    open spec fn obeys_try_from_spec() -> bool {
        true
    }

    open spec fn try_from_spec(s: State) -> Result<Port1Q3IngressRateLimit, InvalidAddress> {
        match s {
            State::Port1Q3IngressRateLimit(r) => Ok(r),
            _ => Err(InvalidAddress),
        }
    }
}

impl Port1Q3IngressRateLimit {
    /// Provides read access to the individual fields of the register.
    pub fn read(&self) -> (r: R<Port1Q3IngressRateLimit>)
        ensures
            r.0 == *self,
    {
        R(*self)
    }

    /// Provides write access to the individual fields of the register.
    pub fn write(self) -> (w: W<Port1Q3IngressRateLimit>)
        ensures
            w.0 == self,
    {
        W(self)
    }
}

impl R<Port1Q3IngressRateLimit> {
    /// Read access to the `limit` field.
    pub fn limit(&self) -> (f: BitsR<u8>)
        ensures
            f.bits == load8(self.0@, 0x7f, 0),
    {
        BitsR { bits: (self.0.bits & 0x7f) >> 0u8 }
    }
}

impl W<Port1Q3IngressRateLimit> {
    /// Write access to the `limit` field.
    pub fn limit(self) -> (f: BitsW<Port1Q3IngressRateLimit>)
        ensures
            f.w == self,
            f.mask == 0x7f,
            f.shift == 0,
    {
        BitsW { w: self, mask: 0x7f, shift: 0 }
    }
}

/// The `Port1PhySpecial` register, at address `0x1a`.
#[derive(Clone, Copy, Debug, PartialEq, Eq, Structural, Hash)]
pub struct Port1PhySpecial {
    bits: u8,
}

impl View for Port1PhySpecial {
    type V = u8;

    closed spec fn view(&self) -> u8 {
        self.bits
    }
}

impl Register for Port1PhySpecial {
    open spec fn spec_address() -> Address {
        Address::Port1PhySpecial
    }

    closed spec fn spec_from_bits(bits: u8) -> Port1PhySpecial {
        Port1PhySpecial { bits }
    }

    proof fn lemma_from_bits(bits: u8) {
    }

    fn address() -> (a: Address) {
        Address::Port1PhySpecial
    }

    fn from_bits(bits: u8) -> (r: Port1PhySpecial) {
        Port1PhySpecial { bits }
    }

    fn to_bits(&self) -> (b: u8) {
        self.bits
    }
}

impl Default for Port1PhySpecial {
    fn default() -> (r: Port1PhySpecial)
        ensures
            r@ == default_bits(Address::Port1PhySpecial),
    {
        Port1PhySpecial { bits: 0x00 }
    }
}

impl From<u8> for Port1PhySpecial {
    fn from(bits: u8) -> (r: Port1PhySpecial) {
        Port1PhySpecial { bits }
    }
}

impl vstd::std_specs::convert::FromSpecImpl<u8> for Port1PhySpecial {
    open spec fn obeys_from_spec() -> bool {
        true
    }

    open spec fn from_spec(bits: u8) -> Port1PhySpecial {
        <Port1PhySpecial as Register>::spec_from_bits(bits)
    }
}

impl From<Port1PhySpecial> for u8 {
    fn from(r: Port1PhySpecial) -> (bits: u8) {
        r.bits
    }
}

impl vstd::std_specs::convert::FromSpecImpl<Port1PhySpecial> for u8 {
    open spec fn obeys_from_spec() -> bool {
        true
    }

    open spec fn from_spec(r: Port1PhySpecial) -> u8 {
        r@
    }
}

impl From<Port1PhySpecial> for State {
    fn from(r: Port1PhySpecial) -> (s: State) {
        State::Port1PhySpecial(r)
    }
}

impl vstd::std_specs::convert::FromSpecImpl<Port1PhySpecial> for State {
    open spec fn obeys_from_spec() -> bool {
        true
    }

    open spec fn from_spec(r: Port1PhySpecial) -> State {
        State::Port1PhySpecial(r)
    }
}

impl core::convert::TryFrom<State> for Port1PhySpecial {
    type Error = InvalidAddress;

    fn try_from(s: State) -> (r: Result<Port1PhySpecial, InvalidAddress>) {
        match s {
            State::Port1PhySpecial(r) => Ok(r),
            _ => Err(InvalidAddress),
        }
    }
}

impl vstd::std_specs::convert::TryFromSpecImpl<State> for Port1PhySpecial {
    open spec fn obeys_try_from_spec() -> bool {
        true
    }

    open spec fn try_from_spec(s: State) -> Result<Port1PhySpecial, InvalidAddress> {
        match s {
            State::Port1PhySpecial(r) => Ok(r),
            _ => Err(InvalidAddress),
        }
    }
}

impl Port1PhySpecial {
    /// Provides read access to the individual fields of the register.
    pub fn read(&self) -> (r: R<Port1PhySpecial>)
        ensures
            r.0 == *self,
    {
        R(*self)
    }

    /// Provides write access to the individual fields of the register.
    pub fn write(self) -> (w: W<Port1PhySpecial>)
        ensures
            w.0 == self,
    {
        W(self)
    }
}

impl R<Port1PhySpecial> {
    /// Read access to the `vct_result` field.
    pub fn vct_result(&self) -> (f: BitsR<u8>)
        ensures
            f.bits == load8(self.0@, 0x60, 5),
    {
        BitsR { bits: (self.0.bits & 0x60) >> 5u8 }
    }

    /// Read access to the `vct_en` field.
    pub fn vct_en(&self) -> (f: BitR)
        ensures
            f.bit == (self.0@ & 0x10 != 0),
    {
        BitR { bit: self.0.bits & 0x10 != 0 }
    }

    /// Read access to the `force_link` field.
    pub fn force_link(&self) -> (f: BitR)
        ensures
            f.bit == (self.0@ & 0x08 != 0),
    {
        BitR { bit: self.0.bits & 0x08 != 0 }
    }

    /// Read access to the `remote_loopback` field.
    pub fn remote_loopback(&self) -> (f: BitR)
        ensures
            f.bit == (self.0@ & 0x02 != 0),
    {
        BitR { bit: self.0.bits & 0x02 != 0 }
    }

    /// Read access to the `vct_fault_count8` field.
    pub fn vct_fault_count8(&self) -> (f: BitR)
        ensures
            f.bit == (self.0@ & 0x01 != 0),
    {
        BitR { bit: self.0.bits & 0x01 != 0 }
    }
}

impl W<Port1PhySpecial> {
    /// Write access to the `vct_en` field.
    pub fn vct_en(self) -> (f: BitW<Port1PhySpecial>)
        ensures
            f.w == self,
            f.mask == 0x10,
    {
        BitW { w: self, mask: 0x10 }
    }

    /// Write access to the `force_link` field.
    pub fn force_link(self) -> (f: BitW<Port1PhySpecial>)
        ensures
            f.w == self,
            f.mask == 0x08,
    {
        BitW { w: self, mask: 0x08 }
    }

    /// Write access to the `remote_loopback` field.
    pub fn remote_loopback(self) -> (f: BitW<Port1PhySpecial>)
        ensures
            f.w == self,
            f.mask == 0x02,
    {
        BitW { w: self, mask: 0x02 }
    }
}

/// The `Port1LinkMdResult` register, at address `0x1b`.
#[derive(Clone, Copy, Debug, PartialEq, Eq, Structural, Hash)]
pub struct Port1LinkMdResult {
    bits: u8,
}

impl View for Port1LinkMdResult {
    type V = u8;

    closed spec fn view(&self) -> u8 {
        self.bits
    }
}

impl Register for Port1LinkMdResult {
    open spec fn spec_address() -> Address {
        Address::Port1LinkMdResult
    }

    closed spec fn spec_from_bits(bits: u8) -> Port1LinkMdResult {
        Port1LinkMdResult { bits }
    }

    proof fn lemma_from_bits(bits: u8) {
    }

    fn address() -> (a: Address) {
        Address::Port1LinkMdResult
    }

    fn from_bits(bits: u8) -> (r: Port1LinkMdResult) {
        Port1LinkMdResult { bits }
    }

    fn to_bits(&self) -> (b: u8) {
        self.bits
    }
}

impl Default for Port1LinkMdResult {
    fn default() -> (r: Port1LinkMdResult)
        ensures
            r@ == default_bits(Address::Port1LinkMdResult),
    {
        Port1LinkMdResult { bits: 0x00 }
    }
}

impl From<u8> for Port1LinkMdResult {
    fn from(bits: u8) -> (r: Port1LinkMdResult) {
        Port1LinkMdResult { bits }
    }
}

impl vstd::std_specs::convert::FromSpecImpl<u8> for Port1LinkMdResult {
    open spec fn obeys_from_spec() -> bool {
        true
    }

    open spec fn from_spec(bits: u8) -> Port1LinkMdResult {
        <Port1LinkMdResult as Register>::spec_from_bits(bits)
    }
}

impl From<Port1LinkMdResult> for u8 {
    fn from(r: Port1LinkMdResult) -> (bits: u8) {
        r.bits
    }
}

impl vstd::std_specs::convert::FromSpecImpl<Port1LinkMdResult> for u8 {
    open spec fn obeys_from_spec() -> bool {
        true
    }

    open spec fn from_spec(r: Port1LinkMdResult) -> u8 {
        r@
    }
}

impl From<Port1LinkMdResult> for State {
    fn from(r: Port1LinkMdResult) -> (s: State) {
        State::Port1LinkMdResult(r)
    }
}

impl vstd::std_specs::convert::FromSpecImpl<Port1LinkMdResult> for State {
    open spec fn obeys_from_spec() -> bool {
        true
    }

    open spec fn from_spec(r: Port1LinkMdResult) -> State {
        State::Port1LinkMdResult(r)
    }
}

impl core::convert::TryFrom<State> for Port1LinkMdResult {
    type Error = InvalidAddress;

    fn try_from(s: State) -> (r: Result<Port1LinkMdResult, InvalidAddress>) {
        match s {
            State::Port1LinkMdResult(r) => Ok(r),
            _ => Err(InvalidAddress),
        }
    }
}

impl vstd::std_specs::convert::TryFromSpecImpl<State> for Port1LinkMdResult {
    open spec fn obeys_try_from_spec() -> bool {
        true
    }

    open spec fn try_from_spec(s: State) -> Result<Port1LinkMdResult, InvalidAddress> {
        match s {
            State::Port1LinkMdResult(r) => Ok(r),
            _ => Err(InvalidAddress),
        }
    }
}

impl Port1LinkMdResult {
    /// Provides read access to the individual fields of the register.
    pub fn read(&self) -> (r: R<Port1LinkMdResult>)
        ensures
            r.0 == *self,
    {
        R(*self)
    }

    /// Provides write access to the individual fields of the register.
    pub fn write(self) -> (w: W<Port1LinkMdResult>)
        ensures
            w.0 == self,
    {
        W(self)
    }
}

impl R<Port1LinkMdResult> {
    /// Read access to the `vct_fault_count7_0` field.
    pub fn vct_fault_count7_0(&self) -> (f: BitsR<u8>)
        ensures
            f.bits == load8(self.0@, 0xff, 0),
    {
        BitsR { bits: (self.0.bits & 0xff) >> 0u8 }
    }
}

/// The `Port1Ctrl12` register, at address `0x1c`.
#[derive(Clone, Copy, Debug, PartialEq, Eq, Structural, Hash)]
pub struct Port1Ctrl12 {
    bits: u8,
}

impl View for Port1Ctrl12 {
    type V = u8;

    closed spec fn view(&self) -> u8 {
        self.bits
    }
}

impl Register for Port1Ctrl12 {
    open spec fn spec_address() -> Address {
        Address::Port1Ctrl12
    }

    closed spec fn spec_from_bits(bits: u8) -> Port1Ctrl12 {
        Port1Ctrl12 { bits }
    }

    proof fn lemma_from_bits(bits: u8) {
    }

    fn address() -> (a: Address) {
        Address::Port1Ctrl12
    }

    fn from_bits(bits: u8) -> (r: Port1Ctrl12) {
        Port1Ctrl12 { bits }
    }

    fn to_bits(&self) -> (b: u8) {
        self.bits
    }
}

impl Default for Port1Ctrl12 {
    fn default() -> (r: Port1Ctrl12)
        ensures
            r@ == default_bits(Address::Port1Ctrl12),
    {
        Port1Ctrl12 { bits: 0x1f }
    }
}

impl From<u8> for Port1Ctrl12 {
    fn from(bits: u8) -> (r: Port1Ctrl12) {
        Port1Ctrl12 { bits }
    }
}

impl vstd::std_specs::convert::FromSpecImpl<u8> for Port1Ctrl12 {
    open spec fn obeys_from_spec() -> bool {
        true
    }

    open spec fn from_spec(bits: u8) -> Port1Ctrl12 {
        <Port1Ctrl12 as Register>::spec_from_bits(bits)
    }
}

impl From<Port1Ctrl12> for u8 {
    fn from(r: Port1Ctrl12) -> (bits: u8) {
        r.bits
    }
}

impl vstd::std_specs::convert::FromSpecImpl<Port1Ctrl12> for u8 {
    open spec fn obeys_from_spec() -> bool {
        true
    }

    open spec fn from_spec(r: Port1Ctrl12) -> u8 {
        r@
    }
}

impl From<Port1Ctrl12> for State {
    fn from(r: Port1Ctrl12) -> (s: State) {
        State::Port1Ctrl12(r)
    }
}

impl vstd::std_specs::convert::FromSpecImpl<Port1Ctrl12> for State {
    open spec fn obeys_from_spec() -> bool {
        true
    }

    open spec fn from_spec(r: Port1Ctrl12) -> State {
        State::Port1Ctrl12(r)
    }
}

impl core::convert::TryFrom<State> for Port1Ctrl12 {
    type Error = InvalidAddress;

    fn try_from(s: State) -> (r: Result<Port1Ctrl12, InvalidAddress>) {
        match s {
            State::Port1Ctrl12(r) => Ok(r),
            _ => Err(InvalidAddress),
        }
    }
}

impl vstd::std_specs::convert::TryFromSpecImpl<State> for Port1Ctrl12 {
    open spec fn obeys_try_from_spec() -> bool {
        true
    }

    open spec fn try_from_spec(s: State) -> Result<Port1Ctrl12, InvalidAddress> {
        match s {
            State::Port1Ctrl12(r) => Ok(r),
            _ => Err(InvalidAddress),
        }
    }
}

impl Port1Ctrl12 {
    /// Provides read access to the individual fields of the register.
    pub fn read(&self) -> (r: R<Port1Ctrl12>)
        ensures
            r.0 == *self,
    {
        R(*self)
    }

    /// Provides write access to the individual fields of the register.
    pub fn write(self) -> (w: W<Port1Ctrl12>)
        ensures
            w.0 == self,
    {
        W(self)
    }
}

impl R<Port1Ctrl12> {
    /// Read access to the `an_enable` field.
    pub fn an_enable(&self) -> (f: BitR)
        ensures
            f.bit == (self.0@ & 0x80 != 0),
    {
        BitR { bit: self.0.bits & 0x80 != 0 }
    }

    /// Read access to the `force_speed` field.
    pub fn force_speed(&self) -> (f: BitR)
        ensures
            f.bit == (self.0@ & 0x40 != 0),
    {
        BitR { bit: self.0.bits & 0x40 != 0 }
    }

    /// Read access to the `force_duplex` field.
    pub fn force_duplex(&self) -> (f: BitR)
        ensures
            f.bit == (self.0@ & 0x20 != 0),
    {
        BitR { bit: self.0.bits & 0x20 != 0 }
    }

    /// Read access to the `adv_flow_ctrl` field.
    pub fn adv_flow_ctrl(&self) -> (f: BitR)
        ensures
            f.bit == (self.0@ & 0x10 != 0),
    {
        BitR { bit: self.0.bits & 0x10 != 0 }
    }

    /// Read access to the `adv_100_fd` field.
    pub fn adv_100_fd(&self) -> (f: BitR)
        ensures
            f.bit == (self.0@ & 0x08 != 0),
    {
        BitR { bit: self.0.bits & 0x08 != 0 }
    }

    /// Read access to the `adv_100_hd` field.
    pub fn adv_100_hd(&self) -> (f: BitR)
        ensures
            f.bit == (self.0@ & 0x04 != 0),
    {
        BitR { bit: self.0.bits & 0x04 != 0 }
    }

    /// Read access to the `adv_10_fd` field.
    pub fn adv_10_fd(&self) -> (f: BitR)
        ensures
            f.bit == (self.0@ & 0x02 != 0),
    {
        BitR { bit: self.0.bits & 0x02 != 0 }
    }

    /// Read access to the `adv_10_hd` field.
    pub fn adv_10_hd(&self) -> (f: BitR)
        ensures
            f.bit == (self.0@ & 0x01 != 0),
    {
        BitR { bit: self.0.bits & 0x01 != 0 }
    }
}

impl W<Port1Ctrl12> {
    /// Write access to the `an_enable` field.
    pub fn an_enable(self) -> (f: BitW<Port1Ctrl12>)
        ensures
            f.w == self,
            f.mask == 0x80,
    {
        BitW { w: self, mask: 0x80 }
    }

    /// Write access to the `force_speed` field.
    pub fn force_speed(self) -> (f: BitW<Port1Ctrl12>)
        ensures
            f.w == self,
            f.mask == 0x40,
    {
        BitW { w: self, mask: 0x40 }
    }

    /// Write access to the `force_duplex` field.
    pub fn force_duplex(self) -> (f: BitW<Port1Ctrl12>)
        ensures
            f.w == self,
            f.mask == 0x20,
    {
        BitW { w: self, mask: 0x20 }
    }

    /// Write access to the `adv_flow_ctrl` field.
    pub fn adv_flow_ctrl(self) -> (f: BitW<Port1Ctrl12>)
        ensures
            f.w == self,
            f.mask == 0x10,
    {
        BitW { w: self, mask: 0x10 }
    }

    /// Write access to the `adv_100_fd` field.
    pub fn adv_100_fd(self) -> (f: BitW<Port1Ctrl12>)
        ensures
            f.w == self,
            f.mask == 0x08,
    {
        BitW { w: self, mask: 0x08 }
    }

    /// Write access to the `adv_100_hd` field.
    pub fn adv_100_hd(self) -> (f: BitW<Port1Ctrl12>)
        ensures
            f.w == self,
            f.mask == 0x04,
    {
        BitW { w: self, mask: 0x04 }
    }

    /// Write access to the `adv_10_fd` field.
    pub fn adv_10_fd(self) -> (f: BitW<Port1Ctrl12>)
        ensures
            f.w == self,
            f.mask == 0x02,
    {
        BitW { w: self, mask: 0x02 }
    }

    /// Write access to the `adv_10_hd` field.
    pub fn adv_10_hd(self) -> (f: BitW<Port1Ctrl12>)
        ensures
            f.w == self,
            f.mask == 0x01,
    {
        BitW { w: self, mask: 0x01 }
    }
}

/// The `Port1Ctrl13` register, at address `0x1d`.
#[derive(Clone, Copy, Debug, PartialEq, Eq, Structural, Hash)]
pub struct Port1Ctrl13 {
    bits: u8,
}

impl View for Port1Ctrl13 {
    type V = u8;

    closed spec fn view(&self) -> u8 {
        self.bits
    }
}

impl Register for Port1Ctrl13 {
    open spec fn spec_address() -> Address {
        Address::Port1Ctrl13
    }

    closed spec fn spec_from_bits(bits: u8) -> Port1Ctrl13 {
        Port1Ctrl13 { bits }
    }

    proof fn lemma_from_bits(bits: u8) {
    }

    fn address() -> (a: Address) {
        Address::Port1Ctrl13
    }

    fn from_bits(bits: u8) -> (r: Port1Ctrl13) {
        Port1Ctrl13 { bits }
    }

    fn to_bits(&self) -> (b: u8) {
        self.bits
    }
}

impl Default for Port1Ctrl13 {
    fn default() -> (r: Port1Ctrl13)
        ensures
            r@ == default_bits(Address::Port1Ctrl13),
    {
        Port1Ctrl13 { bits: 0x00 }
    }
}

impl From<u8> for Port1Ctrl13 {
    fn from(bits: u8) -> (r: Port1Ctrl13) {
        Port1Ctrl13 { bits }
    }
}

impl vstd::std_specs::convert::FromSpecImpl<u8> for Port1Ctrl13 {
    open spec fn obeys_from_spec() -> bool {
        true
    }

    open spec fn from_spec(bits: u8) -> Port1Ctrl13 {
        <Port1Ctrl13 as Register>::spec_from_bits(bits)
    }
}

impl From<Port1Ctrl13> for u8 {
    fn from(r: Port1Ctrl13) -> (bits: u8) {
        r.bits
    }
}

impl vstd::std_specs::convert::FromSpecImpl<Port1Ctrl13> for u8 {
    open spec fn obeys_from_spec() -> bool {
        true
    }

    open spec fn from_spec(r: Port1Ctrl13) -> u8 {
        r@
    }
}

impl From<Port1Ctrl13> for State {
    fn from(r: Port1Ctrl13) -> (s: State) {
        State::Port1Ctrl13(r)
    }
}

impl vstd::std_specs::convert::FromSpecImpl<Port1Ctrl13> for State {
    open spec fn obeys_from_spec() -> bool {
        true
    }

    open spec fn from_spec(r: Port1Ctrl13) -> State {
        State::Port1Ctrl13(r)
    }
}

impl core::convert::TryFrom<State> for Port1Ctrl13 {
    type Error = InvalidAddress;

    fn try_from(s: State) -> (r: Result<Port1Ctrl13, InvalidAddress>) {
        match s {
            State::Port1Ctrl13(r) => Ok(r),
            _ => Err(InvalidAddress),
        }
    }
}

impl vstd::std_specs::convert::TryFromSpecImpl<State> for Port1Ctrl13 {
    open spec fn obeys_try_from_spec() -> bool {
        true
    }

    open spec fn try_from_spec(s: State) -> Result<Port1Ctrl13, InvalidAddress> {
        match s {
            State::Port1Ctrl13(r) => Ok(r),
            _ => Err(InvalidAddress),
        }
    }
}

impl Port1Ctrl13 {
    /// Provides read access to the individual fields of the register.
    pub fn read(&self) -> (r: R<Port1Ctrl13>)
        ensures
            r.0 == *self,
    {
        R(*self)
    }

    /// Provides write access to the individual fields of the register.
    pub fn write(self) -> (w: W<Port1Ctrl13>)
        ensures
            w.0 == self,
    {
        W(self)
    }
}

impl R<Port1Ctrl13> {
    /// Read access to the `led_off` field.
    pub fn led_off(&self) -> (f: BitR)
        ensures
            f.bit == (self.0@ & 0x80 != 0),
    {
        BitR { bit: self.0.bits & 0x80 != 0 }
    }

    /// Read access to the `disable_tx` field.
    pub fn disable_tx(&self) -> (f: BitR)
        ensures
            f.bit == (self.0@ & 0x40 != 0),
    {
        BitR { bit: self.0.bits & 0x40 != 0 }
    }

    /// Read access to the `restart_an` field.
    pub fn restart_an(&self) -> (f: BitR)
        ensures
            f.bit == (self.0@ & 0x20 != 0),
    {
        BitR { bit: self.0.bits & 0x20 != 0 }
    }

    /// Read access to the `disable_far_end_fault` field.
    pub fn disable_far_end_fault(&self) -> (f: BitR)
        ensures
            f.bit == (self.0@ & 0x10 != 0),
    {
        BitR { bit: self.0.bits & 0x10 != 0 }
    }

    /// Read access to the `power_down` field.
    pub fn power_down(&self) -> (f: BitR)
        ensures
            f.bit == (self.0@ & 0x08 != 0),
    {
        BitR { bit: self.0.bits & 0x08 != 0 }
    }

    /// Read access to the `disable_auto_mdix` field.
    pub fn disable_auto_mdix(&self) -> (f: BitR)
        ensures
            f.bit == (self.0@ & 0x04 != 0),
    {
        BitR { bit: self.0.bits & 0x04 != 0 }
    }

    /// Read access to the `force_mdi` field.
    pub fn force_mdi(&self) -> (f: BitR)
        ensures
            f.bit == (self.0@ & 0x02 != 0),
    {
        BitR { bit: self.0.bits & 0x02 != 0 }
    }

    /// Read access to the `loopback` field.
    pub fn loopback(&self) -> (f: BitR)
        ensures
            f.bit == (self.0@ & 0x01 != 0),
    {
        BitR { bit: self.0.bits & 0x01 != 0 }
    }
}

impl W<Port1Ctrl13> {
    /// Write access to the `led_off` field.
    pub fn led_off(self) -> (f: BitW<Port1Ctrl13>)
        ensures
            f.w == self,
            f.mask == 0x80,
    {
        BitW { w: self, mask: 0x80 }
    }

    /// Write access to the `disable_tx` field.
    pub fn disable_tx(self) -> (f: BitW<Port1Ctrl13>)
        ensures
            f.w == self,
            f.mask == 0x40,
    {
        BitW { w: self, mask: 0x40 }
    }

    /// Write access to the `restart_an` field.
    pub fn restart_an(self) -> (f: BitW<Port1Ctrl13>)
        ensures
            f.w == self,
            f.mask == 0x20,
    {
        BitW { w: self, mask: 0x20 }
    }

    /// Write access to the `disable_far_end_fault` field.
    pub fn disable_far_end_fault(self) -> (f: BitW<Port1Ctrl13>)
        ensures
            f.w == self,
            f.mask == 0x10,
    {
        BitW { w: self, mask: 0x10 }
    }

    /// Write access to the `power_down` field.
    pub fn power_down(self) -> (f: BitW<Port1Ctrl13>)
        ensures
            f.w == self,
            f.mask == 0x08,
    {
        BitW { w: self, mask: 0x08 }
    }

    /// Write access to the `disable_auto_mdix` field.
    pub fn disable_auto_mdix(self) -> (f: BitW<Port1Ctrl13>)
        ensures
            f.w == self,
            f.mask == 0x04,
    {
        BitW { w: self, mask: 0x04 }
    }

    /// Write access to the `force_mdi` field.
    pub fn force_mdi(self) -> (f: BitW<Port1Ctrl13>)
        ensures
            f.w == self,
            f.mask == 0x02,
    {
        BitW { w: self, mask: 0x02 }
    }

    /// Write access to the `loopback` field.
    pub fn loopback(self) -> (f: BitW<Port1Ctrl13>)
        ensures
            f.w == self,
            f.mask == 0x01,
    {
        BitW { w: self, mask: 0x01 }
    }
}

/// The `Port1Status0` register, at address `0x1e`.
#[derive(Clone, Copy, Debug, PartialEq, Eq, Structural, Hash)]
pub struct Port1Status0 {
    bits: u8,
}

impl View for Port1Status0 {
    type V = u8;

    closed spec fn view(&self) -> u8 {
        self.bits
    }
}

impl Register for Port1Status0 {
    open spec fn spec_address() -> Address {
        Address::Port1Status0
    }

    closed spec fn spec_from_bits(bits: u8) -> Port1Status0 {
        Port1Status0 { bits }
    }

    proof fn lemma_from_bits(bits: u8) {
    }

    fn address() -> (a: Address) {
        Address::Port1Status0
    }

    fn from_bits(bits: u8) -> (r: Port1Status0) {
        Port1Status0 { bits }
    }

    fn to_bits(&self) -> (b: u8) {
        self.bits
    }
}

impl Default for Port1Status0 {
    fn default() -> (r: Port1Status0)
        ensures
            r@ == default_bits(Address::Port1Status0),
    {
        Port1Status0 { bits: 0x00 }
    }
}

impl From<u8> for Port1Status0 {
    fn from(bits: u8) -> (r: Port1Status0) {
        Port1Status0 { bits }
    }
}

impl vstd::std_specs::convert::FromSpecImpl<u8> for Port1Status0 {
    open spec fn obeys_from_spec() -> bool {
        true
    }

    open spec fn from_spec(bits: u8) -> Port1Status0 {
        <Port1Status0 as Register>::spec_from_bits(bits)
    }
}

impl From<Port1Status0> for u8 {
    fn from(r: Port1Status0) -> (bits: u8) {
        r.bits
    }
}

impl vstd::std_specs::convert::FromSpecImpl<Port1Status0> for u8 {
    open spec fn obeys_from_spec() -> bool {
        true
    }

    open spec fn from_spec(r: Port1Status0) -> u8 {
        r@
    }
}

impl From<Port1Status0> for State {
    fn from(r: Port1Status0) -> (s: State) {
        State::Port1Status0(r)
    }
}

impl vstd::std_specs::convert::FromSpecImpl<Port1Status0> for State {
    open spec fn obeys_from_spec() -> bool {
        true
    }

    open spec fn from_spec(r: Port1Status0) -> State {
        State::Port1Status0(r)
    }
}

impl core::convert::TryFrom<State> for Port1Status0 {
    type Error = InvalidAddress;

    fn try_from(s: State) -> (r: Result<Port1Status0, InvalidAddress>) {
        match s {
            State::Port1Status0(r) => Ok(r),
            _ => Err(InvalidAddress),
        }
    }
}

impl vstd::std_specs::convert::TryFromSpecImpl<State> for Port1Status0 {
    open spec fn obeys_try_from_spec() -> bool {
        true
    }

    open spec fn try_from_spec(s: State) -> Result<Port1Status0, InvalidAddress> {
        match s {
            State::Port1Status0(r) => Ok(r),
            _ => Err(InvalidAddress),
        }
    }
}

impl Port1Status0 {
    /// Provides read access to the individual fields of the register.
    pub fn read(&self) -> (r: R<Port1Status0>)
        ensures
            r.0 == *self,
    {
        R(*self)
    }

    /// Provides write access to the individual fields of the register.
    pub fn write(self) -> (w: W<Port1Status0>)
        ensures
            w.0 == self,
    {
        W(self)
    }
}

impl R<Port1Status0> {
    /// Read access to the `mdix_status` field.
    pub fn mdix_status(&self) -> (f: BitR)
        ensures
            f.bit == (self.0@ & 0x80 != 0),
    {
        BitR { bit: self.0.bits & 0x80 != 0 }
    }

    /// Read access to the `an_done` field.
    pub fn an_done(&self) -> (f: BitR)
        ensures
            f.bit == (self.0@ & 0x40 != 0),
    {
        BitR { bit: self.0.bits & 0x40 != 0 }
    }

    /// Read access to the `link_good` field.
    pub fn link_good(&self) -> (f: BitR)
        ensures
            f.bit == (self.0@ & 0x20 != 0),
    {
        BitR { bit: self.0.bits & 0x20 != 0 }
    }

    /// Read access to the `partner_flow_ctrl` field.
    pub fn partner_flow_ctrl(&self) -> (f: BitR)
        ensures
            f.bit == (self.0@ & 0x10 != 0),
    {
        BitR { bit: self.0.bits & 0x10 != 0 }
    }

    /// Read access to the `partner_100_fd` field.
    pub fn partner_100_fd(&self) -> (f: BitR)
        ensures
            f.bit == (self.0@ & 0x08 != 0),
    {
        BitR { bit: self.0.bits & 0x08 != 0 }
    }

    /// Read access to the `partner_100_hd` field.
    pub fn partner_100_hd(&self) -> (f: BitR)
        ensures
            f.bit == (self.0@ & 0x04 != 0),
    {
        BitR { bit: self.0.bits & 0x04 != 0 }
    }

    /// Read access to the `partner_10_fd` field.
    pub fn partner_10_fd(&self) -> (f: BitR)
        ensures
            f.bit == (self.0@ & 0x02 != 0),
    {
        BitR { bit: self.0.bits & 0x02 != 0 }
    }

    /// Read access to the `partner_10_hd` field.
    pub fn partner_10_hd(&self) -> (f: BitR)
        ensures
            f.bit == (self.0@ & 0x01 != 0),
    {
        BitR { bit: self.0.bits & 0x01 != 0 }
    }
}

/// The `Port1Status1` register, at address `0x1f`.
#[derive(Clone, Copy, Debug, PartialEq, Eq, Structural, Hash)]
pub struct Port1Status1 {
    bits: u8,
}

impl View for Port1Status1 {
    type V = u8;

    closed spec fn view(&self) -> u8 {
        self.bits
    }
}

impl Register for Port1Status1 {
    open spec fn spec_address() -> Address {
        Address::Port1Status1
    }

    closed spec fn spec_from_bits(bits: u8) -> Port1Status1 {
        Port1Status1 { bits }
    }

    proof fn lemma_from_bits(bits: u8) {
    }

    fn address() -> (a: Address) {
        Address::Port1Status1
    }

    fn from_bits(bits: u8) -> (r: Port1Status1) {
        Port1Status1 { bits }
    }

    fn to_bits(&self) -> (b: u8) {
        self.bits
    }
}

impl Default for Port1Status1 {
    fn default() -> (r: Port1Status1)
        ensures
            r@ == default_bits(Address::Port1Status1),
    {
        Port1Status1 { bits: 0x80 }
    }
}

impl From<u8> for Port1Status1 {
    fn from(bits: u8) -> (r: Port1Status1) {
        Port1Status1 { bits }
    }
}

impl vstd::std_specs::convert::FromSpecImpl<u8> for Port1Status1 {
    open spec fn obeys_from_spec() -> bool {
        true
    }

    open spec fn from_spec(bits: u8) -> Port1Status1 {
        <Port1Status1 as Register>::spec_from_bits(bits)
    }
}

impl From<Port1Status1> for u8 {
    fn from(r: Port1Status1) -> (bits: u8) {
        r.bits
    }
}

impl vstd::std_specs::convert::FromSpecImpl<Port1Status1> for u8 {
    open spec fn obeys_from_spec() -> bool {
        true
    }

    open spec fn from_spec(r: Port1Status1) -> u8 {
        r@
    }
}

impl From<Port1Status1> for State {
    fn from(r: Port1Status1) -> (s: State) {
        State::Port1Status1(r)
    }
}

impl vstd::std_specs::convert::FromSpecImpl<Port1Status1> for State {
    open spec fn obeys_from_spec() -> bool {
        true
    }

    open spec fn from_spec(r: Port1Status1) -> State {
        State::Port1Status1(r)
    }
}

impl core::convert::TryFrom<State> for Port1Status1 {
    type Error = InvalidAddress;

    fn try_from(s: State) -> (r: Result<Port1Status1, InvalidAddress>) {
        match s {
            State::Port1Status1(r) => Ok(r),
            _ => Err(InvalidAddress),
        }
    }
}

impl vstd::std_specs::convert::TryFromSpecImpl<State> for Port1Status1 {
    open spec fn obeys_try_from_spec() -> bool {
        true
    }

    open spec fn try_from_spec(s: State) -> Result<Port1Status1, InvalidAddress> {
        match s {
            State::Port1Status1(r) => Ok(r),
            _ => Err(InvalidAddress),
        }
    }
}

impl Port1Status1 {
    /// Provides read access to the individual fields of the register.
    pub fn read(&self) -> (r: R<Port1Status1>)
        ensures
            r.0 == *self,
    {
        R(*self)
    }

    /// Provides write access to the individual fields of the register.
    pub fn write(self) -> (w: W<Port1Status1>)
        ensures
            w.0 == self,
    {
        W(self)
    }
}

impl R<Port1Status1> {
    /// Read access to the `hp_mdix` field.
    pub fn hp_mdix(&self) -> (f: BitR)
        ensures
            f.bit == (self.0@ & 0x80 != 0),
    {
        BitR { bit: self.0.bits & 0x80 != 0 }
    }

    /// Read access to the `polarity_reversed` field.
    pub fn polarity_reversed(&self) -> (f: BitR)
        ensures
            f.bit == (self.0@ & 0x20 != 0),
    {
        BitR { bit: self.0.bits & 0x20 != 0 }
    }

    /// Read access to the `tx_flow_ctrl` field.
    pub fn tx_flow_ctrl(&self) -> (f: BitR)
        ensures
            f.bit == (self.0@ & 0x10 != 0),
    {
        BitR { bit: self.0.bits & 0x10 != 0 }
    }

    /// Read access to the `rx_flow_ctrl` field.
    pub fn rx_flow_ctrl(&self) -> (f: BitR)
        ensures
            f.bit == (self.0@ & 0x08 != 0),
    {
        BitR { bit: self.0.bits & 0x08 != 0 }
    }

    /// Read access to the `operation_speed` field.
    pub fn operation_speed(&self) -> (f: BitR)
        ensures
            f.bit == (self.0@ & 0x04 != 0),
    {
        BitR { bit: self.0.bits & 0x04 != 0 }
    }

    /// Read access to the `operation_duplex` field.
    pub fn operation_duplex(&self) -> (f: BitR)
        ensures
            f.bit == (self.0@ & 0x02 != 0),
    {
        BitR { bit: self.0.bits & 0x02 != 0 }
    }

    /// Read access to the `far_end_fault` field.
    pub fn far_end_fault(&self) -> (f: BitR)
        ensures
            f.bit == (self.0@ & 0x01 != 0),
    {
        BitR { bit: self.0.bits & 0x01 != 0 }
    }
}

/// The `Port2Ctrl0` register, at address `0x20`.
#[derive(Clone, Copy, Debug, PartialEq, Eq, Structural, Hash)]
pub struct Port2Ctrl0 {
    bits: u8,
}

impl View for Port2Ctrl0 {
    type V = u8;

    closed spec fn view(&self) -> u8 {
        self.bits
    }
}

impl Register for Port2Ctrl0 {
    open spec fn spec_address() -> Address {
        Address::Port2Ctrl0
    }

    closed spec fn spec_from_bits(bits: u8) -> Port2Ctrl0 {
        Port2Ctrl0 { bits }
    }

    proof fn lemma_from_bits(bits: u8) {
    }

    fn address() -> (a: Address) {
        Address::Port2Ctrl0
    }

    fn from_bits(bits: u8) -> (r: Port2Ctrl0) {
        Port2Ctrl0 { bits }
    }

    fn to_bits(&self) -> (b: u8) {
        self.bits
    }
}

impl Default for Port2Ctrl0 {
    fn default() -> (r: Port2Ctrl0)
        ensures
            r@ == default_bits(Address::Port2Ctrl0),
    {
        Port2Ctrl0 { bits: 0x00 }
    }
}

impl From<u8> for Port2Ctrl0 {
    fn from(bits: u8) -> (r: Port2Ctrl0) {
        Port2Ctrl0 { bits }
    }
}

impl vstd::std_specs::convert::FromSpecImpl<u8> for Port2Ctrl0 {
    open spec fn obeys_from_spec() -> bool {
        true
    }

    open spec fn from_spec(bits: u8) -> Port2Ctrl0 {
        <Port2Ctrl0 as Register>::spec_from_bits(bits)
    }
}

impl From<Port2Ctrl0> for u8 {
    fn from(r: Port2Ctrl0) -> (bits: u8) {
        r.bits
    }
}

impl vstd::std_specs::convert::FromSpecImpl<Port2Ctrl0> for u8 {
    open spec fn obeys_from_spec() -> bool {
        true
    }

    open spec fn from_spec(r: Port2Ctrl0) -> u8 {
        r@
    }
}

impl From<Port2Ctrl0> for State {
    fn from(r: Port2Ctrl0) -> (s: State) {
        State::Port2Ctrl0(r)
    }
}

impl vstd::std_specs::convert::FromSpecImpl<Port2Ctrl0> for State {
    open spec fn obeys_from_spec() -> bool {
        true
    }

    open spec fn from_spec(r: Port2Ctrl0) -> State {
        State::Port2Ctrl0(r)
    }
}

impl core::convert::TryFrom<State> for Port2Ctrl0 {
    type Error = InvalidAddress;

    fn try_from(s: State) -> (r: Result<Port2Ctrl0, InvalidAddress>) {
        match s {
            State::Port2Ctrl0(r) => Ok(r),
            _ => Err(InvalidAddress),
        }
    }
}

impl vstd::std_specs::convert::TryFromSpecImpl<State> for Port2Ctrl0 {
    open spec fn obeys_try_from_spec() -> bool {
        true
    }

    open spec fn try_from_spec(s: State) -> Result<Port2Ctrl0, InvalidAddress> {
        match s {
            State::Port2Ctrl0(r) => Ok(r),
            _ => Err(InvalidAddress),
        }
    }
}

impl Port2Ctrl0 {
    /// Provides read access to the individual fields of the register.
    pub fn read(&self) -> (r: R<Port2Ctrl0>)
        ensures
            r.0 == *self,
    {
        R(*self)
    }

    /// Provides write access to the individual fields of the register.
    pub fn write(self) -> (w: W<Port2Ctrl0>)
        ensures
            w.0 == self,
    {
        W(self)
    }
}

impl R<Port2Ctrl0> {
    /// Read access to the `broadcast_storm_protection` field.
    pub fn broadcast_storm_protection(&self) -> (f: BitR)
        ensures
            f.bit == (self.0@ & 0x80 != 0),
    {
        BitR { bit: self.0.bits & 0x80 != 0 }
    }

    /// Read access to the `diff_serv_priority_classification` field.
    pub fn diff_serv_priority_classification(&self) -> (f: BitR)
        ensures
            f.bit == (self.0@ & 0x40 != 0),
    {
        BitR { bit: self.0.bits & 0x40 != 0 }
    }

    /// Read access to the `ieee_priority_classification` field.
    pub fn ieee_priority_classification(&self) -> (f: BitR)
        ensures
            f.bit == (self.0@ & 0x20 != 0),
    {
        BitR { bit: self.0.bits & 0x20 != 0 }
    }

    /// Read access to the `port_based_priority_classification` field.
    pub fn port_based_priority_classification(&self) -> (f: BitsR<u8>)
        ensures
            f.bits == load8(self.0@, 0x18, 3),
    {
        BitsR { bits: (self.0.bits & 0x18) >> 3u8 }
    }

    /// Read access to the `tag_insertion` field.
    pub fn tag_insertion(&self) -> (f: BitR)
        ensures
            f.bit == (self.0@ & 0x04 != 0),
    {
        BitR { bit: self.0.bits & 0x04 != 0 }
    }

    /// Read access to the `tag_removal` field.
    pub fn tag_removal(&self) -> (f: BitR)
        ensures
            f.bit == (self.0@ & 0x02 != 0),
    {
        BitR { bit: self.0.bits & 0x02 != 0 }
    }

    /// Read access to the `txq_split` field.
    pub fn txq_split(&self) -> (f: BitR)
        ensures
            f.bit == (self.0@ & 0x01 != 0),
    {
        BitR { bit: self.0.bits & 0x01 != 0 }
    }
}

impl W<Port2Ctrl0> {
    /// Write access to the `broadcast_storm_protection` field.
    pub fn broadcast_storm_protection(self) -> (f: BitW<Port2Ctrl0>)
        ensures
            f.w == self,
            f.mask == 0x80,
    {
        BitW { w: self, mask: 0x80 }
    }

    /// Write access to the `diff_serv_priority_classification` field.
    pub fn diff_serv_priority_classification(self) -> (f: BitW<Port2Ctrl0>)
        ensures
            f.w == self,
            f.mask == 0x40,
    {
        BitW { w: self, mask: 0x40 }
    }

    /// Write access to the `ieee_priority_classification` field.
    pub fn ieee_priority_classification(self) -> (f: BitW<Port2Ctrl0>)
        ensures
            f.w == self,
            f.mask == 0x20,
    {
        BitW { w: self, mask: 0x20 }
    }

    /// Write access to the `port_based_priority_classification` field.
    pub fn port_based_priority_classification(self) -> (f: BitsW<Port2Ctrl0>)
        ensures
            f.w == self,
            f.mask == 0x18,
            f.shift == 3,
    {
        BitsW { w: self, mask: 0x18, shift: 3 }
    }

    /// Write access to the `tag_insertion` field.
    pub fn tag_insertion(self) -> (f: BitW<Port2Ctrl0>)
        ensures
            f.w == self,
            f.mask == 0x04,
    {
        BitW { w: self, mask: 0x04 }
    }

    /// Write access to the `tag_removal` field.
    pub fn tag_removal(self) -> (f: BitW<Port2Ctrl0>)
        ensures
            f.w == self,
            f.mask == 0x02,
    {
        BitW { w: self, mask: 0x02 }
    }

    /// Write access to the `txq_split` field.
    pub fn txq_split(self) -> (f: BitW<Port2Ctrl0>)
        ensures
            f.w == self,
            f.mask == 0x01,
    {
        BitW { w: self, mask: 0x01 }
    }
}

/// The `Port2Ctrl1` register, at address `0x21`.
#[derive(Clone, Copy, Debug, PartialEq, Eq, Structural, Hash)]
pub struct Port2Ctrl1 {
    bits: u8,
}

impl View for Port2Ctrl1 {
    type V = u8;

    closed spec fn view(&self) -> u8 {
        self.bits
    }
}

impl Register for Port2Ctrl1 {
    open spec fn spec_address() -> Address {
        Address::Port2Ctrl1
    }

    closed spec fn spec_from_bits(bits: u8) -> Port2Ctrl1 {
        Port2Ctrl1 { bits }
    }

    proof fn lemma_from_bits(bits: u8) {
    }

    fn address() -> (a: Address) {
        Address::Port2Ctrl1
    }

    fn from_bits(bits: u8) -> (r: Port2Ctrl1) {
        Port2Ctrl1 { bits }
    }

    fn to_bits(&self) -> (b: u8) {
        self.bits
    }
}

impl Default for Port2Ctrl1 {
    fn default() -> (r: Port2Ctrl1)
        ensures
            r@ == default_bits(Address::Port2Ctrl1),
    {
        Port2Ctrl1 { bits: 0x07 }
    }
}

impl From<u8> for Port2Ctrl1 {
    fn from(bits: u8) -> (r: Port2Ctrl1) {
        Port2Ctrl1 { bits }
    }
}

impl vstd::std_specs::convert::FromSpecImpl<u8> for Port2Ctrl1 {
    open spec fn obeys_from_spec() -> bool {
        true
    }

    open spec fn from_spec(bits: u8) -> Port2Ctrl1 {
        <Port2Ctrl1 as Register>::spec_from_bits(bits)
    }
}

impl From<Port2Ctrl1> for u8 {
    fn from(r: Port2Ctrl1) -> (bits: u8) {
        r.bits
    }
}

impl vstd::std_specs::convert::FromSpecImpl<Port2Ctrl1> for u8 {
    open spec fn obeys_from_spec() -> bool {
        true
    }

    open spec fn from_spec(r: Port2Ctrl1) -> u8 {
        r@
    }
}

impl From<Port2Ctrl1> for State {
    fn from(r: Port2Ctrl1) -> (s: State) {
        State::Port2Ctrl1(r)
    }
}

impl vstd::std_specs::convert::FromSpecImpl<Port2Ctrl1> for State {
    open spec fn obeys_from_spec() -> bool {
        true
    }

    open spec fn from_spec(r: Port2Ctrl1) -> State {
        State::Port2Ctrl1(r)
    }
}

impl core::convert::TryFrom<State> for Port2Ctrl1 {
    type Error = InvalidAddress;

    fn try_from(s: State) -> (r: Result<Port2Ctrl1, InvalidAddress>) {
        match s {
            State::Port2Ctrl1(r) => Ok(r),
            _ => Err(InvalidAddress),
        }
    }
}

impl vstd::std_specs::convert::TryFromSpecImpl<State> for Port2Ctrl1 {
    open spec fn obeys_try_from_spec() -> bool {
        true
    }

    open spec fn try_from_spec(s: State) -> Result<Port2Ctrl1, InvalidAddress> {
        match s {
            State::Port2Ctrl1(r) => Ok(r),
            _ => Err(InvalidAddress),
        }
    }
}

impl Port2Ctrl1 {
    /// Provides read access to the individual fields of the register.
    pub fn read(&self) -> (r: R<Port2Ctrl1>)
        ensures
            r.0 == *self,
    {
        R(*self)
    }

    /// Provides write access to the individual fields of the register.
    pub fn write(self) -> (w: W<Port2Ctrl1>)
        ensures
            w.0 == self,
    {
        W(self)
    }
}

impl R<Port2Ctrl1> {
    /// Read access to the `sniffer_port` field.
    pub fn sniffer_port(&self) -> (f: BitR)
        ensures
            f.bit == (self.0@ & 0x80 != 0),
    {
        BitR { bit: self.0.bits & 0x80 != 0 }
    }

    /// Read access to the `receive_sniff` field.
    pub fn receive_sniff(&self) -> (f: BitR)
        ensures
            f.bit == (self.0@ & 0x40 != 0),
    {
        BitR { bit: self.0.bits & 0x40 != 0 }
    }

    /// Read access to the `transmit_sniff` field.
    pub fn transmit_sniff(&self) -> (f: BitR)
        ensures
            f.bit == (self.0@ & 0x20 != 0),
    {
        BitR { bit: self.0.bits & 0x20 != 0 }
    }

    /// Read access to the `double_tag` field.
    pub fn double_tag(&self) -> (f: BitR)
        ensures
            f.bit == (self.0@ & 0x10 != 0),
    {
        BitR { bit: self.0.bits & 0x10 != 0 }
    }

    /// Read access to the `user_priority_ceiling` field.
    pub fn user_priority_ceiling(&self) -> (f: BitR)
        ensures
            f.bit == (self.0@ & 0x08 != 0),
    {
        BitR { bit: self.0.bits & 0x08 != 0 }
    }

    /// Read access to the `port_vlan_membership` field.
    pub fn port_vlan_membership(&self) -> (f: BitsR<u8>)
        ensures
            f.bits == load8(self.0@, 0x07, 0),
    {
        BitsR { bits: (self.0.bits & 0x07) >> 0u8 }
    }
}

impl W<Port2Ctrl1> {
    /// Write access to the `sniffer_port` field.
    pub fn sniffer_port(self) -> (f: BitW<Port2Ctrl1>)
        ensures
            f.w == self,
            f.mask == 0x80,
    {
        BitW { w: self, mask: 0x80 }
    }

    /// Write access to the `receive_sniff` field.
    pub fn receive_sniff(self) -> (f: BitW<Port2Ctrl1>)
        ensures
            f.w == self,
            f.mask == 0x40,
    {
        BitW { w: self, mask: 0x40 }
    }

    /// Write access to the `transmit_sniff` field.
    pub fn transmit_sniff(self) -> (f: BitW<Port2Ctrl1>)
        ensures
            f.w == self,
            f.mask == 0x20,
    {
        BitW { w: self, mask: 0x20 }
    }

    /// Write access to the `double_tag` field.
    pub fn double_tag(self) -> (f: BitW<Port2Ctrl1>)
        ensures
            f.w == self,
            f.mask == 0x10,
    {
        BitW { w: self, mask: 0x10 }
    }

    /// Write access to the `user_priority_ceiling` field.
    pub fn user_priority_ceiling(self) -> (f: BitW<Port2Ctrl1>)
        ensures
            f.w == self,
            f.mask == 0x08,
    {
        BitW { w: self, mask: 0x08 }
    }

    /// Write access to the `port_vlan_membership` field.
    pub fn port_vlan_membership(self) -> (f: BitsW<Port2Ctrl1>)
        ensures
            f.w == self,
            f.mask == 0x07,
            f.shift == 0,
    {
        BitsW { w: self, mask: 0x07, shift: 0 }
    }
}

/// The `Port2Ctrl2` register, at address `0x22`.
#[derive(Clone, Copy, Debug, PartialEq, Eq, Structural, Hash)]
pub struct Port2Ctrl2 {
    bits: u8,
}

impl View for Port2Ctrl2 {
    type V = u8;

    closed spec fn view(&self) -> u8 {
        self.bits
    }
}

impl Register for Port2Ctrl2 {
    open spec fn spec_address() -> Address {
        Address::Port2Ctrl2
    }

    closed spec fn spec_from_bits(bits: u8) -> Port2Ctrl2 {
        Port2Ctrl2 { bits }
    }

    proof fn lemma_from_bits(bits: u8) {
    }

    fn address() -> (a: Address) {
        Address::Port2Ctrl2
    }

    fn from_bits(bits: u8) -> (r: Port2Ctrl2) {
        Port2Ctrl2 { bits }
    }

    fn to_bits(&self) -> (b: u8) {
        self.bits
    }
}

impl Default for Port2Ctrl2 {
    fn default() -> (r: Port2Ctrl2)
        ensures
            r@ == default_bits(Address::Port2Ctrl2),
    {
        Port2Ctrl2 { bits: 0x06 }
    }
}

impl From<u8> for Port2Ctrl2 {
    fn from(bits: u8) -> (r: Port2Ctrl2) {
        Port2Ctrl2 { bits }
    }
}

impl vstd::std_specs::convert::FromSpecImpl<u8> for Port2Ctrl2 {
    open spec fn obeys_from_spec() -> bool {
        true
    }

    open spec fn from_spec(bits: u8) -> Port2Ctrl2 {
        <Port2Ctrl2 as Register>::spec_from_bits(bits)
    }
}

impl From<Port2Ctrl2> for u8 {
    fn from(r: Port2Ctrl2) -> (bits: u8) {
        r.bits
    }
}

impl vstd::std_specs::convert::FromSpecImpl<Port2Ctrl2> for u8 {
    open spec fn obeys_from_spec() -> bool {
        true
    }

    open spec fn from_spec(r: Port2Ctrl2) -> u8 {
        r@
    }
}

impl From<Port2Ctrl2> for State {
    fn from(r: Port2Ctrl2) -> (s: State) {
        State::Port2Ctrl2(r)
    }
}

impl vstd::std_specs::convert::FromSpecImpl<Port2Ctrl2> for State {
    open spec fn obeys_from_spec() -> bool {
        true
    }

    open spec fn from_spec(r: Port2Ctrl2) -> State {
        State::Port2Ctrl2(r)
    }
}

impl core::convert::TryFrom<State> for Port2Ctrl2 {
    type Error = InvalidAddress;

    fn try_from(s: State) -> (r: Result<Port2Ctrl2, InvalidAddress>) {
        match s {
            State::Port2Ctrl2(r) => Ok(r),
            _ => Err(InvalidAddress),
        }
    }
}

impl vstd::std_specs::convert::TryFromSpecImpl<State> for Port2Ctrl2 {
    open spec fn obeys_try_from_spec() -> bool {
        true
    }

    open spec fn try_from_spec(s: State) -> Result<Port2Ctrl2, InvalidAddress> {
        match s {
            State::Port2Ctrl2(r) => Ok(r),
            _ => Err(InvalidAddress),
        }
    }
}

impl Port2Ctrl2 {
    /// Provides read access to the individual fields of the register.
    pub fn read(&self) -> (r: R<Port2Ctrl2>)
        ensures
            r.0 == *self,
    {
        R(*self)
    }

    /// Provides write access to the individual fields of the register.
    pub fn write(self) -> (w: W<Port2Ctrl2>)
        ensures
            w.0 == self,
    {
        W(self)
    }
}

impl R<Port2Ctrl2> {
    /// Read access to the `enable_2_queue_split_tx` field.
    pub fn enable_2_queue_split_tx(&self) -> (f: BitR)
        ensures
            f.bit == (self.0@ & 0x80 != 0),
    {
        BitR { bit: self.0.bits & 0x80 != 0 }
    }

    /// Read access to the `ingress_vlan_filtering` field.
    pub fn ingress_vlan_filtering(&self) -> (f: BitR)
        ensures
            f.bit == (self.0@ & 0x40 != 0),
    {
        BitR { bit: self.0.bits & 0x40 != 0 }
    }

    /// Read access to the `discard_non_pvid_packets` field.
    pub fn discard_non_pvid_packets(&self) -> (f: BitR)
        ensures
            f.bit == (self.0@ & 0x20 != 0),
    {
        BitR { bit: self.0.bits & 0x20 != 0 }
    }

    /// Read access to the `force_flow_control` field.
    pub fn force_flow_control(&self) -> (f: BitR)
        ensures
            f.bit == (self.0@ & 0x10 != 0),
    {
        BitR { bit: self.0.bits & 0x10 != 0 }
    }

    /// Read access to the `back_pressure` field.
    pub fn back_pressure(&self) -> (f: BitR)
        ensures
            f.bit == (self.0@ & 0x08 != 0),
    {
        BitR { bit: self.0.bits & 0x08 != 0 }
    }

    /// Read access to the `transmit` field.
    pub fn transmit(&self) -> (f: BitR)
        ensures
            f.bit == (self.0@ & 0x04 != 0),
    {
        BitR { bit: self.0.bits & 0x04 != 0 }
    }

    /// Read access to the `receive` field.
    pub fn receive(&self) -> (f: BitR)
        ensures
            f.bit == (self.0@ & 0x02 != 0),
    {
        BitR { bit: self.0.bits & 0x02 != 0 }
    }

    /// Read access to the `learning_disable` field.
    pub fn learning_disable(&self) -> (f: BitR)
        ensures
            f.bit == (self.0@ & 0x01 != 0),
    {
        BitR { bit: self.0.bits & 0x01 != 0 }
    }
}

impl W<Port2Ctrl2> {
    /// Write access to the `enable_2_queue_split_tx` field.
    pub fn enable_2_queue_split_tx(self) -> (f: BitW<Port2Ctrl2>)
        ensures
            f.w == self,
            f.mask == 0x80,
    {
        BitW { w: self, mask: 0x80 }
    }

    /// Write access to the `ingress_vlan_filtering` field.
    pub fn ingress_vlan_filtering(self) -> (f: BitW<Port2Ctrl2>)
        ensures
            f.w == self,
            f.mask == 0x40,
    {
        BitW { w: self, mask: 0x40 }
    }

    /// Write access to the `discard_non_pvid_packets` field.
    pub fn discard_non_pvid_packets(self) -> (f: BitW<Port2Ctrl2>)
        ensures
            f.w == self,
            f.mask == 0x20,
    {
        BitW { w: self, mask: 0x20 }
    }

    /// Write access to the `force_flow_control` field.
    pub fn force_flow_control(self) -> (f: BitW<Port2Ctrl2>)
        ensures
            f.w == self,
            f.mask == 0x10,
    {
        BitW { w: self, mask: 0x10 }
    }

    /// Write access to the `back_pressure` field.
    pub fn back_pressure(self) -> (f: BitW<Port2Ctrl2>)
        ensures
            f.w == self,
            f.mask == 0x08,
    {
        BitW { w: self, mask: 0x08 }
    }

    /// Write access to the `transmit` field.
    pub fn transmit(self) -> (f: BitW<Port2Ctrl2>)
        ensures
            f.w == self,
            f.mask == 0x04,
    {
        BitW { w: self, mask: 0x04 }
    }

    /// Write access to the `receive` field.
    pub fn receive(self) -> (f: BitW<Port2Ctrl2>)
        ensures
            f.w == self,
            f.mask == 0x02,
    {
        BitW { w: self, mask: 0x02 }
    }

    /// Write access to the `learning_disable` field.
    pub fn learning_disable(self) -> (f: BitW<Port2Ctrl2>)
        ensures
            f.w == self,
            f.mask == 0x01,
    {
        BitW { w: self, mask: 0x01 }
    }
}

/// The `Port2Ctrl3` register, at address `0x23`.
#[derive(Clone, Copy, Debug, PartialEq, Eq, Structural, Hash)]
pub struct Port2Ctrl3 {
    bits: u8,
}

impl View for Port2Ctrl3 {
    type V = u8;

    closed spec fn view(&self) -> u8 {
        self.bits
    }
}

impl Register for Port2Ctrl3 {
    open spec fn spec_address() -> Address {
        Address::Port2Ctrl3
    }

    closed spec fn spec_from_bits(bits: u8) -> Port2Ctrl3 {
        Port2Ctrl3 { bits }
    }

    proof fn lemma_from_bits(bits: u8) {
    }

    fn address() -> (a: Address) {
        Address::Port2Ctrl3
    }

    fn from_bits(bits: u8) -> (r: Port2Ctrl3) {
        Port2Ctrl3 { bits }
    }

    fn to_bits(&self) -> (b: u8) {
        self.bits
    }
}

impl Default for Port2Ctrl3 {
    fn default() -> (r: Port2Ctrl3)
        ensures
            r@ == default_bits(Address::Port2Ctrl3),
    {
        Port2Ctrl3 { bits: 0x00 }
    }
}

impl From<u8> for Port2Ctrl3 {
    fn from(bits: u8) -> (r: Port2Ctrl3) {
        Port2Ctrl3 { bits }
    }
}

impl vstd::std_specs::convert::FromSpecImpl<u8> for Port2Ctrl3 {
    open spec fn obeys_from_spec() -> bool {
        true
    }

    open spec fn from_spec(bits: u8) -> Port2Ctrl3 {
        <Port2Ctrl3 as Register>::spec_from_bits(bits)
    }
}

impl From<Port2Ctrl3> for u8 {
    fn from(r: Port2Ctrl3) -> (bits: u8) {
        r.bits
    }
}

impl vstd::std_specs::convert::FromSpecImpl<Port2Ctrl3> for u8 {
    open spec fn obeys_from_spec() -> bool {
        true
    }

    open spec fn from_spec(r: Port2Ctrl3) -> u8 {
        r@
    }
}

impl From<Port2Ctrl3> for State {
    fn from(r: Port2Ctrl3) -> (s: State) {
        State::Port2Ctrl3(r)
    }
}

impl vstd::std_specs::convert::FromSpecImpl<Port2Ctrl3> for State {
    open spec fn obeys_from_spec() -> bool {
        true
    }

    open spec fn from_spec(r: Port2Ctrl3) -> State {
        State::Port2Ctrl3(r)
    }
}

impl core::convert::TryFrom<State> for Port2Ctrl3 {
    type Error = InvalidAddress;

    fn try_from(s: State) -> (r: Result<Port2Ctrl3, InvalidAddress>) {
        match s {
            State::Port2Ctrl3(r) => Ok(r),
            _ => Err(InvalidAddress),
        }
    }
}

impl vstd::std_specs::convert::TryFromSpecImpl<State> for Port2Ctrl3 {
    open spec fn obeys_try_from_spec() -> bool {
        true
    }

    open spec fn try_from_spec(s: State) -> Result<Port2Ctrl3, InvalidAddress> {
        match s {
            State::Port2Ctrl3(r) => Ok(r),
            _ => Err(InvalidAddress),
        }
    }
}

impl Port2Ctrl3 {
    /// Provides read access to the individual fields of the register.
    pub fn read(&self) -> (r: R<Port2Ctrl3>)
        ensures
            r.0 == *self,
    {
        R(*self)
    }

    /// Provides write access to the individual fields of the register.
    pub fn write(self) -> (w: W<Port2Ctrl3>)
        ensures
            w.0 == self,
    {
        W(self)
    }
}

impl R<Port2Ctrl3> {
    /// Read access to the `default_tag_15_8` field.
    pub fn default_tag_15_8(&self) -> (f: BitsR<u8>)
        ensures
            f.bits == load8(self.0@, 0xff, 0),
    {
        BitsR { bits: (self.0.bits & 0xff) >> 0u8 }
    }
}

impl W<Port2Ctrl3> {
    /// Write access to the `default_tag_15_8` field.
    pub fn default_tag_15_8(self) -> (f: BitsW<Port2Ctrl3>)
        ensures
            f.w == self,
            f.mask == 0xff,
            f.shift == 0,
    {
        BitsW { w: self, mask: 0xff, shift: 0 }
    }
}

/// The `Port2Ctrl4` register, at address `0x24`.
#[derive(Clone, Copy, Debug, PartialEq, Eq, Structural, Hash)]
pub struct Port2Ctrl4 {
    bits: u8,
}

impl View for Port2Ctrl4 {
    type V = u8;

    closed spec fn view(&self) -> u8 {
        self.bits
    }
}

impl Register for Port2Ctrl4 {
    open spec fn spec_address() -> Address {
        Address::Port2Ctrl4
    }

    closed spec fn spec_from_bits(bits: u8) -> Port2Ctrl4 {
        Port2Ctrl4 { bits }
    }

    proof fn lemma_from_bits(bits: u8) {
    }

    fn address() -> (a: Address) {
        Address::Port2Ctrl4
    }

    fn from_bits(bits: u8) -> (r: Port2Ctrl4) {
        Port2Ctrl4 { bits }
    }

    fn to_bits(&self) -> (b: u8) {
        self.bits
    }
}

impl Default for Port2Ctrl4 {
    fn default() -> (r: Port2Ctrl4)
        ensures
            r@ == default_bits(Address::Port2Ctrl4),
    {
        Port2Ctrl4 { bits: 0x01 }
    }
}

impl From<u8> for Port2Ctrl4 {
    fn from(bits: u8) -> (r: Port2Ctrl4) {
        Port2Ctrl4 { bits }
    }
}

impl vstd::std_specs::convert::FromSpecImpl<u8> for Port2Ctrl4 {
    open spec fn obeys_from_spec() -> bool {
        true
    }

    open spec fn from_spec(bits: u8) -> Port2Ctrl4 {
        <Port2Ctrl4 as Register>::spec_from_bits(bits)
    }
}

impl From<Port2Ctrl4> for u8 {
    fn from(r: Port2Ctrl4) -> (bits: u8) {
        r.bits
    }
}

impl vstd::std_specs::convert::FromSpecImpl<Port2Ctrl4> for u8 {
    open spec fn obeys_from_spec() -> bool {
        true
    }

    open spec fn from_spec(r: Port2Ctrl4) -> u8 {
        r@
    }
}

impl From<Port2Ctrl4> for State {
    fn from(r: Port2Ctrl4) -> (s: State) {
        State::Port2Ctrl4(r)
    }
}

impl vstd::std_specs::convert::FromSpecImpl<Port2Ctrl4> for State {
    open spec fn obeys_from_spec() -> bool {
        true
    }

    open spec fn from_spec(r: Port2Ctrl4) -> State {
        State::Port2Ctrl4(r)
    }
}

impl core::convert::TryFrom<State> for Port2Ctrl4 {
    type Error = InvalidAddress;

    fn try_from(s: State) -> (r: Result<Port2Ctrl4, InvalidAddress>) {
        match s {
            State::Port2Ctrl4(r) => Ok(r),
            _ => Err(InvalidAddress),
        }
    }
}

impl vstd::std_specs::convert::TryFromSpecImpl<State> for Port2Ctrl4 {
    open spec fn obeys_try_from_spec() -> bool {
        true
    }

    open spec fn try_from_spec(s: State) -> Result<Port2Ctrl4, InvalidAddress> {
        match s {
            State::Port2Ctrl4(r) => Ok(r),
            _ => Err(InvalidAddress),
        }
    }
}

impl Port2Ctrl4 {
    /// Provides read access to the individual fields of the register.
    pub fn read(&self) -> (r: R<Port2Ctrl4>)
        ensures
            r.0 == *self,
    {
        R(*self)
    }

    /// Provides write access to the individual fields of the register.
    pub fn write(self) -> (w: W<Port2Ctrl4>)
        ensures
            w.0 == self,
    {
        W(self)
    }
}

impl R<Port2Ctrl4> {
    /// Read access to the `default_tag_7_0` field.
    pub fn default_tag_7_0(&self) -> (f: BitsR<u8>)
        ensures
            f.bits == load8(self.0@, 0xff, 0),
    {
        BitsR { bits: (self.0.bits & 0xff) >> 0u8 }
    }
}

impl W<Port2Ctrl4> {
    /// Write access to the `default_tag_7_0` field.
    pub fn default_tag_7_0(self) -> (f: BitsW<Port2Ctrl4>)
        ensures
            f.w == self,
            f.mask == 0xff,
            f.shift == 0,
    {
        BitsW { w: self, mask: 0xff, shift: 0 }
    }
}

/// The `Port2Ctrl5` register, at address `0x25`.
#[derive(Clone, Copy, Debug, PartialEq, Eq, Structural, Hash)]
pub struct Port2Ctrl5 {
    bits: u8,
}

impl View for Port2Ctrl5 {
    type V = u8;

    closed spec fn view(&self) -> u8 {
        self.bits
    }
}

impl Register for Port2Ctrl5 {
    open spec fn spec_address() -> Address {
        Address::Port2Ctrl5
    }

    closed spec fn spec_from_bits(bits: u8) -> Port2Ctrl5 {
        Port2Ctrl5 { bits }
    }

    proof fn lemma_from_bits(bits: u8) {
    }

    fn address() -> (a: Address) {
        Address::Port2Ctrl5
    }

    fn from_bits(bits: u8) -> (r: Port2Ctrl5) {
        Port2Ctrl5 { bits }
    }

    fn to_bits(&self) -> (b: u8) {
        self.bits
    }
}

impl Default for Port2Ctrl5 {
    fn default() -> (r: Port2Ctrl5)
        ensures
            r@ == default_bits(Address::Port2Ctrl5),
    {
        Port2Ctrl5 { bits: 0x00 }
    }
}

impl From<u8> for Port2Ctrl5 {
    fn from(bits: u8) -> (r: Port2Ctrl5) {
        Port2Ctrl5 { bits }
    }
}

impl vstd::std_specs::convert::FromSpecImpl<u8> for Port2Ctrl5 {
    open spec fn obeys_from_spec() -> bool {
        true
    }

    open spec fn from_spec(bits: u8) -> Port2Ctrl5 {
        <Port2Ctrl5 as Register>::spec_from_bits(bits)
    }
}

impl From<Port2Ctrl5> for u8 {
    fn from(r: Port2Ctrl5) -> (bits: u8) {
        r.bits
    }
}

impl vstd::std_specs::convert::FromSpecImpl<Port2Ctrl5> for u8 {
    open spec fn obeys_from_spec() -> bool {
        true
    }

    open spec fn from_spec(r: Port2Ctrl5) -> u8 {
        r@
    }
}

impl From<Port2Ctrl5> for State {
    fn from(r: Port2Ctrl5) -> (s: State) {
        State::Port2Ctrl5(r)
    }
}

impl vstd::std_specs::convert::FromSpecImpl<Port2Ctrl5> for State {
    open spec fn obeys_from_spec() -> bool {
        true
    }

    open spec fn from_spec(r: Port2Ctrl5) -> State {
        State::Port2Ctrl5(r)
    }
}

impl core::convert::TryFrom<State> for Port2Ctrl5 {
    type Error = InvalidAddress;

    fn try_from(s: State) -> (r: Result<Port2Ctrl5, InvalidAddress>) {
        match s {
            State::Port2Ctrl5(r) => Ok(r),
            _ => Err(InvalidAddress),
        }
    }
}

impl vstd::std_specs::convert::TryFromSpecImpl<State> for Port2Ctrl5 {
    open spec fn obeys_try_from_spec() -> bool {
        true
    }

    open spec fn try_from_spec(s: State) -> Result<Port2Ctrl5, InvalidAddress> {
        match s {
            State::Port2Ctrl5(r) => Ok(r),
            _ => Err(InvalidAddress),
        }
    }
}

impl Port2Ctrl5 {
    /// Provides read access to the individual fields of the register.
    pub fn read(&self) -> (r: R<Port2Ctrl5>)
        ensures
            r.0 == *self,
    {
        R(*self)
    }

    /// Provides write access to the individual fields of the register.
    pub fn write(self) -> (w: W<Port2Ctrl5>)
        ensures
            w.0 == self,
    {
        W(self)
    }
}

impl R<Port2Ctrl5> {
    /// Read access to the `port3_mii_mode_selection` field.
    pub fn port3_mii_mode_selection(&self) -> (f: BitR)
        ensures
            f.bit == (self.0@ & 0x80 != 0),
    {
        BitR { bit: self.0.bits & 0x80 != 0 }
    }

    /// Read access to the `self_addr_filtering_enable_maca1` field.
    pub fn self_addr_filtering_enable_maca1(&self) -> (f: BitR)
        ensures
            f.bit == (self.0@ & 0x40 != 0),
    {
        BitR { bit: self.0.bits & 0x40 != 0 }
    }

    /// Read access to the `self_addr_filtering_enable_maca2` field.
    pub fn self_addr_filtering_enable_maca2(&self) -> (f: BitR)
        ensures
            f.bit == (self.0@ & 0x20 != 0),
    {
        BitR { bit: self.0.bits & 0x20 != 0 }
    }

    /// Read access to the `dropped_ingress_tagged_frame` field.
    pub fn dropped_ingress_tagged_frame(&self) -> (f: BitR)
        ensures
            f.bit == (self.0@ & 0x10 != 0),
    {
        BitR { bit: self.0.bits & 0x10 != 0 }
    }

    /// Read access to the `limit_mode` field.
    pub fn limit_mode(&self) -> (f: BitsR<u8>)
        ensures
            f.bits == load8(self.0@, 0x0c, 2),
    {
        BitsR { bits: (self.0.bits & 0x0c) >> 2u8 }
    }

    /// Read access to the `count_ifg` field.
    pub fn count_ifg(&self) -> (f: BitR)
        ensures
            f.bit == (self.0@ & 0x02 != 0),
    {
        BitR { bit: self.0.bits & 0x02 != 0 }
    }

    /// Read access to the `count_pre` field.
    pub fn count_pre(&self) -> (f: BitR)
        ensures
            f.bit == (self.0@ & 0x01 != 0),
    {
        BitR { bit: self.0.bits & 0x01 != 0 }
    }
}

impl W<Port2Ctrl5> {
    /// Write access to the `port3_mii_mode_selection` field.
    pub fn port3_mii_mode_selection(self) -> (f: BitW<Port2Ctrl5>)
        ensures
            f.w == self,
            f.mask == 0x80,
    {
        BitW { w: self, mask: 0x80 }
    }

    /// Write access to the `self_addr_filtering_enable_maca1` field.
    pub fn self_addr_filtering_enable_maca1(self) -> (f: BitW<Port2Ctrl5>)
        ensures
            f.w == self,
            f.mask == 0x40,
    {
        BitW { w: self, mask: 0x40 }
    }

    /// Write access to the `self_addr_filtering_enable_maca2` field.
    pub fn self_addr_filtering_enable_maca2(self) -> (f: BitW<Port2Ctrl5>)
        ensures
            f.w == self,
            f.mask == 0x20,
    {
        BitW { w: self, mask: 0x20 }
    }

    /// Write access to the `dropped_ingress_tagged_frame` field.
    pub fn dropped_ingress_tagged_frame(self) -> (f: BitW<Port2Ctrl5>)
        ensures
            f.w == self,
            f.mask == 0x10,
    {
        BitW { w: self, mask: 0x10 }
    }

    /// Write access to the `limit_mode` field.
    pub fn limit_mode(self) -> (f: BitsW<Port2Ctrl5>)
        ensures
            f.w == self,
            f.mask == 0x0c,
            f.shift == 2,
    {
        BitsW { w: self, mask: 0x0c, shift: 2 }
    }

    /// Write access to the `count_ifg` field.
    pub fn count_ifg(self) -> (f: BitW<Port2Ctrl5>)
        ensures
            f.w == self,
            f.mask == 0x02,
    {
        BitW { w: self, mask: 0x02 }
    }

    /// Write access to the `count_pre` field.
    pub fn count_pre(self) -> (f: BitW<Port2Ctrl5>)
        ensures
            f.w == self,
            f.mask == 0x01,
    {
        BitW { w: self, mask: 0x01 }
    }
}

/// The `Port2Q0IngressRateLimit` register, at address `0x26`.
#[derive(Clone, Copy, Debug, PartialEq, Eq, Structural, Hash)]
pub struct Port2Q0IngressRateLimit {
    bits: u8,
}

impl View for Port2Q0IngressRateLimit {
    type V = u8;

    closed spec fn view(&self) -> u8 {
        self.bits
    }
}

impl Register for Port2Q0IngressRateLimit {
    open spec fn spec_address() -> Address {
        Address::Port2Q0IngressRateLimit
    }

    closed spec fn spec_from_bits(bits: u8) -> Port2Q0IngressRateLimit {
        Port2Q0IngressRateLimit { bits }
    }

    proof fn lemma_from_bits(bits: u8) {
    }

    fn address() -> (a: Address) {
        Address::Port2Q0IngressRateLimit
    }

    fn from_bits(bits: u8) -> (r: Port2Q0IngressRateLimit) {
        Port2Q0IngressRateLimit { bits }
    }

    fn to_bits(&self) -> (b: u8) {
        self.bits
    }
}

impl Default for Port2Q0IngressRateLimit {
    fn default() -> (r: Port2Q0IngressRateLimit)
        ensures
            r@ == default_bits(Address::Port2Q0IngressRateLimit),
    {
        Port2Q0IngressRateLimit { bits: 0x00 }
    }
}

impl From<u8> for Port2Q0IngressRateLimit {
    fn from(bits: u8) -> (r: Port2Q0IngressRateLimit) {
        Port2Q0IngressRateLimit { bits }
    }
}

impl vstd::std_specs::convert::FromSpecImpl<u8> for Port2Q0IngressRateLimit {
    open spec fn obeys_from_spec() -> bool {
        true
    }

    open spec fn from_spec(bits: u8) -> Port2Q0IngressRateLimit {
        <Port2Q0IngressRateLimit as Register>::spec_from_bits(bits)
    }
}

impl From<Port2Q0IngressRateLimit> for u8 {
    fn from(r: Port2Q0IngressRateLimit) -> (bits: u8) {
        r.bits
    }
}

impl vstd::std_specs::convert::FromSpecImpl<Port2Q0IngressRateLimit> for u8 {
    open spec fn obeys_from_spec() -> bool {
        true
    }

    open spec fn from_spec(r: Port2Q0IngressRateLimit) -> u8 {
        r@
    }
}

impl From<Port2Q0IngressRateLimit> for State {
    fn from(r: Port2Q0IngressRateLimit) -> (s: State) {
        State::Port2Q0IngressRateLimit(r)
    }
}

impl vstd::std_specs::convert::FromSpecImpl<Port2Q0IngressRateLimit> for State {
    open spec fn obeys_from_spec() -> bool {
        true
    }

    open spec fn from_spec(r: Port2Q0IngressRateLimit) -> State {
        State::Port2Q0IngressRateLimit(r)
    }
}

impl core::convert::TryFrom<State> for Port2Q0IngressRateLimit {
    type Error = InvalidAddress;

    fn try_from(s: State) -> (r: Result<Port2Q0IngressRateLimit, InvalidAddress>) {
        match s {
            State::Port2Q0IngressRateLimit(r) => Ok(r),
            _ => Err(InvalidAddress),
        }
    }
}

impl vstd::std_specs::convert::TryFromSpecImpl<State> for Port2Q0IngressRateLimit {
    open spec fn obeys_try_from_spec() -> bool {
        true
    }

    open spec fn try_from_spec(s: State) -> Result<Port2Q0IngressRateLimit, InvalidAddress> {
        match s {
            State::Port2Q0IngressRateLimit(r) => Ok(r),
            _ => Err(InvalidAddress),
        }
    }
}

impl Port2Q0IngressRateLimit {
    /// Provides read access to the individual fields of the register.
    pub fn read(&self) -> (r: R<Port2Q0IngressRateLimit>)
        ensures
            r.0 == *self,
    {
        R(*self)
    }

    /// Provides write access to the individual fields of the register.
    pub fn write(self) -> (w: W<Port2Q0IngressRateLimit>)
        ensures
            w.0 == self,
    {
        W(self)
    }
}

impl R<Port2Q0IngressRateLimit> {
    /// Read access to the `limit` field.
    pub fn limit(&self) -> (f: BitsR<u8>)
        ensures
            f.bits == load8(self.0@, 0x7f, 0),
    {
        BitsR { bits: (self.0.bits & 0x7f) >> 0u8 }
    }
}

impl W<Port2Q0IngressRateLimit> {
    /// Write access to the `limit` field.
    pub fn limit(self) -> (f: BitsW<Port2Q0IngressRateLimit>)
        ensures
            f.w == self,
            f.mask == 0x7f,
            f.shift == 0,
    {
        BitsW { w: self, mask: 0x7f, shift: 0 }
    }
}

/// The `Port2Q1IngressRateLimit` register, at address `0x27`.
#[derive(Clone, Copy, Debug, PartialEq, Eq, Structural, Hash)]
pub struct Port2Q1IngressRateLimit {
    bits: u8,
}

impl View for Port2Q1IngressRateLimit {
    type V = u8;

    closed spec fn view(&self) -> u8 {
        self.bits
    }
}

impl Register for Port2Q1IngressRateLimit {
    open spec fn spec_address() -> Address {
        Address::Port2Q1IngressRateLimit
    }

    closed spec fn spec_from_bits(bits: u8) -> Port2Q1IngressRateLimit {
        Port2Q1IngressRateLimit { bits }
    }

    proof fn lemma_from_bits(bits: u8) {
    }

    fn address() -> (a: Address) {
        Address::Port2Q1IngressRateLimit
    }

    fn from_bits(bits: u8) -> (r: Port2Q1IngressRateLimit) {
        Port2Q1IngressRateLimit { bits }
    }

    fn to_bits(&self) -> (b: u8) {
        self.bits
    }
}

impl Default for Port2Q1IngressRateLimit {
    fn default() -> (r: Port2Q1IngressRateLimit)
        ensures
            r@ == default_bits(Address::Port2Q1IngressRateLimit),
    {
        Port2Q1IngressRateLimit { bits: 0x00 }
    }
}

impl From<u8> for Port2Q1IngressRateLimit {
    fn from(bits: u8) -> (r: Port2Q1IngressRateLimit) {
        Port2Q1IngressRateLimit { bits }
    }
}

impl vstd::std_specs::convert::FromSpecImpl<u8> for Port2Q1IngressRateLimit {
    open spec fn obeys_from_spec() -> bool {
        true
    }

    open spec fn from_spec(bits: u8) -> Port2Q1IngressRateLimit {
        <Port2Q1IngressRateLimit as Register>::spec_from_bits(bits)
    }
}

impl From<Port2Q1IngressRateLimit> for u8 {
    fn from(r: Port2Q1IngressRateLimit) -> (bits: u8) {
        r.bits
    }
}

impl vstd::std_specs::convert::FromSpecImpl<Port2Q1IngressRateLimit> for u8 {
    open spec fn obeys_from_spec() -> bool {
        true
    }

    open spec fn from_spec(r: Port2Q1IngressRateLimit) -> u8 {
        r@
    }
}

impl From<Port2Q1IngressRateLimit> for State {
    fn from(r: Port2Q1IngressRateLimit) -> (s: State) {
        State::Port2Q1IngressRateLimit(r)
    }
}

impl vstd::std_specs::convert::FromSpecImpl<Port2Q1IngressRateLimit> for State {
    open spec fn obeys_from_spec() -> bool {
        true
    }

    open spec fn from_spec(r: Port2Q1IngressRateLimit) -> State {
        State::Port2Q1IngressRateLimit(r)
    }
}

impl core::convert::TryFrom<State> for Port2Q1IngressRateLimit {
    type Error = InvalidAddress;

    fn try_from(s: State) -> (r: Result<Port2Q1IngressRateLimit, InvalidAddress>) {
        match s {
            State::Port2Q1IngressRateLimit(r) => Ok(r),
            _ => Err(InvalidAddress),
        }
    }
}

impl vstd::std_specs::convert::TryFromSpecImpl<State> for Port2Q1IngressRateLimit {
    open spec fn obeys_try_from_spec() -> bool {
        true
    }

    open spec fn try_from_spec(s: State) -> Result<Port2Q1IngressRateLimit, InvalidAddress> {
        match s {
            State::Port2Q1IngressRateLimit(r) => Ok(r),
            _ => Err(InvalidAddress),
        }
    }
}

impl Port2Q1IngressRateLimit {
    /// Provides read access to the individual fields of the register.
    pub fn read(&self) -> (r: R<Port2Q1IngressRateLimit>)
        ensures
            r.0 == *self,
    {
        R(*self)
    }

    /// Provides write access to the individual fields of the register.
    pub fn write(self) -> (w: W<Port2Q1IngressRateLimit>)
        ensures
            w.0 == self,
    {
        W(self)
    }
}

impl R<Port2Q1IngressRateLimit> {
    /// Read access to the `limit` field.
    pub fn limit(&self) -> (f: BitsR<u8>)
        ensures
            f.bits == load8(self.0@, 0x7f, 0),
    {
        BitsR { bits: (self.0.bits & 0x7f) >> 0u8 }
    }
}

impl W<Port2Q1IngressRateLimit> {
    /// Write access to the `limit` field.
    pub fn limit(self) -> (f: BitsW<Port2Q1IngressRateLimit>)
        ensures
            f.w == self,
            f.mask == 0x7f,
            f.shift == 0,
    {
        BitsW { w: self, mask: 0x7f, shift: 0 }
    }
}

/// The `Port2Q2IngressRateLimit` register, at address `0x28`.
#[derive(Clone, Copy, Debug, PartialEq, Eq, Structural, Hash)]
pub struct Port2Q2IngressRateLimit {
    bits: u8,
}

impl View for Port2Q2IngressRateLimit {
    type V = u8;

    closed spec fn view(&self) -> u8 {
        self.bits
    }
}

impl Register for Port2Q2IngressRateLimit {
    open spec fn spec_address() -> Address {
        Address::Port2Q2IngressRateLimit
    }

    closed spec fn spec_from_bits(bits: u8) -> Port2Q2IngressRateLimit {
        Port2Q2IngressRateLimit { bits }
    }

    proof fn lemma_from_bits(bits: u8) {
    }

    fn address() -> (a: Address) {
        Address::Port2Q2IngressRateLimit
    }

    fn from_bits(bits: u8) -> (r: Port2Q2IngressRateLimit) {
        Port2Q2IngressRateLimit { bits }
    }

    fn to_bits(&self) -> (b: u8) {
        self.bits
    }
}

impl Default for Port2Q2IngressRateLimit {
    fn default() -> (r: Port2Q2IngressRateLimit)
        ensures
            r@ == default_bits(Address::Port2Q2IngressRateLimit),
    {
        Port2Q2IngressRateLimit { bits: 0x00 }
    }
}

impl From<u8> for Port2Q2IngressRateLimit {
    fn from(bits: u8) -> (r: Port2Q2IngressRateLimit) {
        Port2Q2IngressRateLimit { bits }
    }
}

impl vstd::std_specs::convert::FromSpecImpl<u8> for Port2Q2IngressRateLimit {
    open spec fn obeys_from_spec() -> bool {
        true
    }

    open spec fn from_spec(bits: u8) -> Port2Q2IngressRateLimit {
        <Port2Q2IngressRateLimit as Register>::spec_from_bits(bits)
    }
}

impl From<Port2Q2IngressRateLimit> for u8 {
    fn from(r: Port2Q2IngressRateLimit) -> (bits: u8) {
        r.bits
    }
}

impl vstd::std_specs::convert::FromSpecImpl<Port2Q2IngressRateLimit> for u8 {
    open spec fn obeys_from_spec() -> bool {
        true
    }

    open spec fn from_spec(r: Port2Q2IngressRateLimit) -> u8 {
        r@
    }
}

impl From<Port2Q2IngressRateLimit> for State {
    fn from(r: Port2Q2IngressRateLimit) -> (s: State) {
        State::Port2Q2IngressRateLimit(r)
    }
}

impl vstd::std_specs::convert::FromSpecImpl<Port2Q2IngressRateLimit> for State {
    open spec fn obeys_from_spec() -> bool {
        true
    }

    open spec fn from_spec(r: Port2Q2IngressRateLimit) -> State {
        State::Port2Q2IngressRateLimit(r)
    }
}

impl core::convert::TryFrom<State> for Port2Q2IngressRateLimit {
    type Error = InvalidAddress;

    fn try_from(s: State) -> (r: Result<Port2Q2IngressRateLimit, InvalidAddress>) {
        match s {
            State::Port2Q2IngressRateLimit(r) => Ok(r),
            _ => Err(InvalidAddress),
        }
    }
}

impl vstd::std_specs::convert::TryFromSpecImpl<State> for Port2Q2IngressRateLimit {
    open spec fn obeys_try_from_spec() -> bool {
        true
    }

    open spec fn try_from_spec(s: State) -> Result<Port2Q2IngressRateLimit, InvalidAddress> {
        match s {
            State::Port2Q2IngressRateLimit(r) => Ok(r),
            _ => Err(InvalidAddress),
        }
    }
}

impl Port2Q2IngressRateLimit {
    /// Provides read access to the individual fields of the register.
    pub fn read(&self) -> (r: R<Port2Q2IngressRateLimit>)
        ensures
            r.0 == *self,
    {
        R(*self)
    }

    /// Provides write access to the individual fields of the register.
    pub fn write(self) -> (w: W<Port2Q2IngressRateLimit>)
        ensures
            w.0 == self,
    {
        W(self)
    }
}

impl R<Port2Q2IngressRateLimit> {
    /// Read access to the `limit` field.
    pub fn limit(&self) -> (f: BitsR<u8>)
        ensures
            f.bits == load8(self.0@, 0x7f, 0),
    {
        BitsR { bits: (self.0.bits & 0x7f) >> 0u8 }
    }
}

impl W<Port2Q2IngressRateLimit> {
    /// Write access to the `limit` field.
    pub fn limit(self) -> (f: BitsW<Port2Q2IngressRateLimit>)
        ensures
            f.w == self,
            f.mask == 0x7f,
            f.shift == 0,
    {
        BitsW { w: self, mask: 0x7f, shift: 0 }
    }
}

/// The `Port2Q3IngressRateLimit` register, at address `0x29`.
#[derive(Clone, Copy, Debug, PartialEq, Eq, Structural, Hash)]
pub struct Port2Q3IngressRateLimit {
    bits: u8,
}

impl View for Port2Q3IngressRateLimit {
    type V = u8;

    closed spec fn view(&self) -> u8 {
        self.bits
    }
}

impl Register for Port2Q3IngressRateLimit {
    open spec fn spec_address() -> Address {
        Address::Port2Q3IngressRateLimit
    }

    closed spec fn spec_from_bits(bits: u8) -> Port2Q3IngressRateLimit {
        Port2Q3IngressRateLimit { bits }
    }

    proof fn lemma_from_bits(bits: u8) {
    }

    fn address() -> (a: Address) {
        Address::Port2Q3IngressRateLimit
    }

    fn from_bits(bits: u8) -> (r: Port2Q3IngressRateLimit) {
        Port2Q3IngressRateLimit { bits }
    }

    fn to_bits(&self) -> (b: u8) {
        self.bits
    }
}

impl Default for Port2Q3IngressRateLimit {
    fn default() -> (r: Port2Q3IngressRateLimit)
        ensures
            r@ == default_bits(Address::Port2Q3IngressRateLimit),
    {
        Port2Q3IngressRateLimit { bits: 0x00 }
    }
}

impl From<u8> for Port2Q3IngressRateLimit {
    fn from(bits: u8) -> (r: Port2Q3IngressRateLimit) {
        Port2Q3IngressRateLimit { bits }
    }
}

impl vstd::std_specs::convert::FromSpecImpl<u8> for Port2Q3IngressRateLimit {
    open spec fn obeys_from_spec() -> bool {
        true
    }

    open spec fn from_spec(bits: u8) -> Port2Q3IngressRateLimit {
        <Port2Q3IngressRateLimit as Register>::spec_from_bits(bits)
    }
}

impl From<Port2Q3IngressRateLimit> for u8 {
    fn from(r: Port2Q3IngressRateLimit) -> (bits: u8) {
        r.bits
    }
}

impl vstd::std_specs::convert::FromSpecImpl<Port2Q3IngressRateLimit> for u8 {
    open spec fn obeys_from_spec() -> bool {
        true
    }

    open spec fn from_spec(r: Port2Q3IngressRateLimit) -> u8 {
        r@
    }
}

impl From<Port2Q3IngressRateLimit> for State {
    fn from(r: Port2Q3IngressRateLimit) -> (s: State) {
        State::Port2Q3IngressRateLimit(r)
    }
}

impl vstd::std_specs::convert::FromSpecImpl<Port2Q3IngressRateLimit> for State {
    open spec fn obeys_from_spec() -> bool {
        true
    }

    open spec fn from_spec(r: Port2Q3IngressRateLimit) -> State {
        State::Port2Q3IngressRateLimit(r)
    }
}

impl core::convert::TryFrom<State> for Port2Q3IngressRateLimit {
    type Error = InvalidAddress;

    fn try_from(s: State) -> (r: Result<Port2Q3IngressRateLimit, InvalidAddress>) {
        match s {
            State::Port2Q3IngressRateLimit(r) => Ok(r),
            _ => Err(InvalidAddress),
        }
    }
}

impl vstd::std_specs::convert::TryFromSpecImpl<State> for Port2Q3IngressRateLimit {
    open spec fn obeys_try_from_spec() -> bool {
        true
    }

    open spec fn try_from_spec(s: State) -> Result<Port2Q3IngressRateLimit, InvalidAddress> {
        match s {
            State::Port2Q3IngressRateLimit(r) => Ok(r),
            _ => Err(InvalidAddress),
        }
    }
}

impl Port2Q3IngressRateLimit {
    /// Provides read access to the individual fields of the register.
    pub fn read(&self) -> (r: R<Port2Q3IngressRateLimit>)
        ensures
            r.0 == *self,
    {
        R(*self)
    }

    /// Provides write access to the individual fields of the register.
    pub fn write(self) -> (w: W<Port2Q3IngressRateLimit>)
        ensures
            w.0 == self,
    {
        W(self)
    }
}

impl R<Port2Q3IngressRateLimit> {
    /// Read access to the `limit` field.
    pub fn limit(&self) -> (f: BitsR<u8>)
        ensures
            f.bits == load8(self.0@, 0x7f, 0),
    {
        BitsR { bits: (self.0.bits & 0x7f) >> 0u8 }
    }
}

impl W<Port2Q3IngressRateLimit> {
    /// Write access to the `limit` field.
    pub fn limit(self) -> (f: BitsW<Port2Q3IngressRateLimit>)
        ensures
            f.w == self,
            f.mask == 0x7f,
            f.shift == 0,
    {
        BitsW { w: self, mask: 0x7f, shift: 0 }
    }
}

/// The `Port2PhySpecial` register, at address `0x2a`.
#[derive(Clone, Copy, Debug, PartialEq, Eq, Structural, Hash)]
pub struct Port2PhySpecial {
    bits: u8,
}

impl View for Port2PhySpecial {
    type V = u8;

    closed spec fn view(&self) -> u8 {
        self.bits
    }
}

impl Register for Port2PhySpecial {
    open spec fn spec_address() -> Address {
        Address::Port2PhySpecial
    }

    closed spec fn spec_from_bits(bits: u8) -> Port2PhySpecial {
        Port2PhySpecial { bits }
    }

    proof fn lemma_from_bits(bits: u8) {
    }

    fn address() -> (a: Address) {
        Address::Port2PhySpecial
    }

    fn from_bits(bits: u8) -> (r: Port2PhySpecial) {
        Port2PhySpecial { bits }
    }

    fn to_bits(&self) -> (b: u8) {
        self.bits
    }
}

impl Default for Port2PhySpecial {
    fn default() -> (r: Port2PhySpecial)
        ensures
            r@ == default_bits(Address::Port2PhySpecial),
    {
        Port2PhySpecial { bits: 0x00 }
    }
}

impl From<u8> for Port2PhySpecial {
    fn from(bits: u8) -> (r: Port2PhySpecial) {
        Port2PhySpecial { bits }
    }
}

impl vstd::std_specs::convert::FromSpecImpl<u8> for Port2PhySpecial {
    open spec fn obeys_from_spec() -> bool {
        true
    }

    open spec fn from_spec(bits: u8) -> Port2PhySpecial {
        <Port2PhySpecial as Register>::spec_from_bits(bits)
    }
}

impl From<Port2PhySpecial> for u8 {
    fn from(r: Port2PhySpecial) -> (bits: u8) {
        r.bits
    }
}

impl vstd::std_specs::convert::FromSpecImpl<Port2PhySpecial> for u8 {
    open spec fn obeys_from_spec() -> bool {
        true
    }

    open spec fn from_spec(r: Port2PhySpecial) -> u8 {
        r@
    }
}

impl From<Port2PhySpecial> for State {
    fn from(r: Port2PhySpecial) -> (s: State) {
        State::Port2PhySpecial(r)
    }
}

impl vstd::std_specs::convert::FromSpecImpl<Port2PhySpecial> for State {
    open spec fn obeys_from_spec() -> bool {
        true
    }

    open spec fn from_spec(r: Port2PhySpecial) -> State {
        State::Port2PhySpecial(r)
    }
}

impl core::convert::TryFrom<State> for Port2PhySpecial {
    type Error = InvalidAddress;

    fn try_from(s: State) -> (r: Result<Port2PhySpecial, InvalidAddress>) {
        match s {
            State::Port2PhySpecial(r) => Ok(r),
            _ => Err(InvalidAddress),
        }
    }
}

impl vstd::std_specs::convert::TryFromSpecImpl<State> for Port2PhySpecial {
    open spec fn obeys_try_from_spec() -> bool {
        true
    }

    open spec fn try_from_spec(s: State) -> Result<Port2PhySpecial, InvalidAddress> {
        match s {
            State::Port2PhySpecial(r) => Ok(r),
            _ => Err(InvalidAddress),
        }
    }
}

impl Port2PhySpecial {
    /// Provides read access to the individual fields of the register.
    pub fn read(&self) -> (r: R<Port2PhySpecial>)
        ensures
            r.0 == *self,
    {
        R(*self)
    }

    /// Provides write access to the individual fields of the register.
    pub fn write(self) -> (w: W<Port2PhySpecial>)
        ensures
            w.0 == self,
    {
        W(self)
    }
}

impl R<Port2PhySpecial> {
    /// Read access to the `vct_result` field.
    pub fn vct_result(&self) -> (f: BitsR<u8>)
        ensures
            f.bits == load8(self.0@, 0x60, 5),
    {
        BitsR { bits: (self.0.bits & 0x60) >> 5u8 }
    }

    /// Read access to the `vct_en` field.
    pub fn vct_en(&self) -> (f: BitR)
        ensures
            f.bit == (self.0@ & 0x10 != 0),
    {
        BitR { bit: self.0.bits & 0x10 != 0 }
    }

    /// Read access to the `force_link` field.
    pub fn force_link(&self) -> (f: BitR)
        ensures
            f.bit == (self.0@ & 0x08 != 0),
    {
        BitR { bit: self.0.bits & 0x08 != 0 }
    }

    /// Read access to the `remote_loopback` field.
    pub fn remote_loopback(&self) -> (f: BitR)
        ensures
            f.bit == (self.0@ & 0x02 != 0),
    {
        BitR { bit: self.0.bits & 0x02 != 0 }
    }

    /// Read access to the `vct_fault_count8` field.
    pub fn vct_fault_count8(&self) -> (f: BitR)
        ensures
            f.bit == (self.0@ & 0x01 != 0),
    {
        BitR { bit: self.0.bits & 0x01 != 0 }
    }
}

impl W<Port2PhySpecial> {
    /// Write access to the `vct_en` field.
    pub fn vct_en(self) -> (f: BitW<Port2PhySpecial>)
        ensures
            f.w == self,
            f.mask == 0x10,
    {
        BitW { w: self, mask: 0x10 }
    }

    /// Write access to the `force_link` field.
    pub fn force_link(self) -> (f: BitW<Port2PhySpecial>)
        ensures
            f.w == self,
            f.mask == 0x08,
    {
        BitW { w: self, mask: 0x08 }
    }

    /// Write access to the `remote_loopback` field.
    pub fn remote_loopback(self) -> (f: BitW<Port2PhySpecial>)
        ensures
            f.w == self,
            f.mask == 0x02,
    {
        BitW { w: self, mask: 0x02 }
    }
}

/// The `Port2LinkMdResult` register, at address `0x2b`.
#[derive(Clone, Copy, Debug, PartialEq, Eq, Structural, Hash)]
pub struct Port2LinkMdResult {
    bits: u8,
}

impl View for Port2LinkMdResult {
    type V = u8;

    closed spec fn view(&self) -> u8 {
        self.bits
    }
}

impl Register for Port2LinkMdResult {
    open spec fn spec_address() -> Address {
        Address::Port2LinkMdResult
    }

    closed spec fn spec_from_bits(bits: u8) -> Port2LinkMdResult {
        Port2LinkMdResult { bits }
    }

    proof fn lemma_from_bits(bits: u8) {
    }

    fn address() -> (a: Address) {
        Address::Port2LinkMdResult
    }

    fn from_bits(bits: u8) -> (r: Port2LinkMdResult) {
        Port2LinkMdResult { bits }
    }

    fn to_bits(&self) -> (b: u8) {
        self.bits
    }
}

impl Default for Port2LinkMdResult {
    fn default() -> (r: Port2LinkMdResult)
        ensures
            r@ == default_bits(Address::Port2LinkMdResult),
    {
        Port2LinkMdResult { bits: 0x00 }
    }
}

impl From<u8> for Port2LinkMdResult {
    fn from(bits: u8) -> (r: Port2LinkMdResult) {
        Port2LinkMdResult { bits }
    }
}

impl vstd::std_specs::convert::FromSpecImpl<u8> for Port2LinkMdResult {
    open spec fn obeys_from_spec() -> bool {
        true
    }

    open spec fn from_spec(bits: u8) -> Port2LinkMdResult {
        <Port2LinkMdResult as Register>::spec_from_bits(bits)
    }
}

impl From<Port2LinkMdResult> for u8 {
    fn from(r: Port2LinkMdResult) -> (bits: u8) {
        r.bits
    }
}

impl vstd::std_specs::convert::FromSpecImpl<Port2LinkMdResult> for u8 {
    open spec fn obeys_from_spec() -> bool {
        true
    }

    open spec fn from_spec(r: Port2LinkMdResult) -> u8 {
        r@
    }
}

impl From<Port2LinkMdResult> for State {
    fn from(r: Port2LinkMdResult) -> (s: State) {
        State::Port2LinkMdResult(r)
    }
}

impl vstd::std_specs::convert::FromSpecImpl<Port2LinkMdResult> for State {
    open spec fn obeys_from_spec() -> bool {
        true
    }

    open spec fn from_spec(r: Port2LinkMdResult) -> State {
        State::Port2LinkMdResult(r)
    }
}

impl core::convert::TryFrom<State> for Port2LinkMdResult {
    type Error = InvalidAddress;

    fn try_from(s: State) -> (r: Result<Port2LinkMdResult, InvalidAddress>) {
        match s {
            State::Port2LinkMdResult(r) => Ok(r),
            _ => Err(InvalidAddress),
        }
    }
}

impl vstd::std_specs::convert::TryFromSpecImpl<State> for Port2LinkMdResult {
    open spec fn obeys_try_from_spec() -> bool {
        true
    }

    open spec fn try_from_spec(s: State) -> Result<Port2LinkMdResult, InvalidAddress> {
        match s {
            State::Port2LinkMdResult(r) => Ok(r),
            _ => Err(InvalidAddress),
        }
    }
}

impl Port2LinkMdResult {
    /// Provides read access to the individual fields of the register.
    pub fn read(&self) -> (r: R<Port2LinkMdResult>)
        ensures
            r.0 == *self,
    {
        R(*self)
    }

    /// Provides write access to the individual fields of the register.
    pub fn write(self) -> (w: W<Port2LinkMdResult>)
        ensures
            w.0 == self,
    {
        W(self)
    }
}

impl R<Port2LinkMdResult> {
    /// Read access to the `vct_fault_count7_0` field.
    pub fn vct_fault_count7_0(&self) -> (f: BitsR<u8>)
        ensures
            f.bits == load8(self.0@, 0xff, 0),
    {
        BitsR { bits: (self.0.bits & 0xff) >> 0u8 }
    }
}

/// The `Port2Ctrl12` register, at address `0x2c`.
#[derive(Clone, Copy, Debug, PartialEq, Eq, Structural, Hash)]
pub struct Port2Ctrl12 {
    bits: u8,
}

impl View for Port2Ctrl12 {
    type V = u8;

    closed spec fn view(&self) -> u8 {
        self.bits
    }
}

impl Register for Port2Ctrl12 {
    open spec fn spec_address() -> Address {
        Address::Port2Ctrl12
    }

    closed spec fn spec_from_bits(bits: u8) -> Port2Ctrl12 {
        Port2Ctrl12 { bits }
    }

    proof fn lemma_from_bits(bits: u8) {
    }

    fn address() -> (a: Address) {
        Address::Port2Ctrl12
    }

    fn from_bits(bits: u8) -> (r: Port2Ctrl12) {
        Port2Ctrl12 { bits }
    }

    fn to_bits(&self) -> (b: u8) {
        self.bits
    }
}

impl Default for Port2Ctrl12 {
    fn default() -> (r: Port2Ctrl12)
        ensures
            r@ == default_bits(Address::Port2Ctrl12),
    {
        Port2Ctrl12 { bits: 0x1f }
    }
}

impl From<u8> for Port2Ctrl12 {
    fn from(bits: u8) -> (r: Port2Ctrl12) {
        Port2Ctrl12 { bits }
    }
}

impl vstd::std_specs::convert::FromSpecImpl<u8> for Port2Ctrl12 {
    open spec fn obeys_from_spec() -> bool {
        true
    }

    open spec fn from_spec(bits: u8) -> Port2Ctrl12 {
        <Port2Ctrl12 as Register>::spec_from_bits(bits)
    }
}

impl From<Port2Ctrl12> for u8 {
    fn from(r: Port2Ctrl12) -> (bits: u8) {
        r.bits
    }
}

impl vstd::std_specs::convert::FromSpecImpl<Port2Ctrl12> for u8 {
    open spec fn obeys_from_spec() -> bool {
        true
    }

    open spec fn from_spec(r: Port2Ctrl12) -> u8 {
        r@
    }
}

impl From<Port2Ctrl12> for State {
    fn from(r: Port2Ctrl12) -> (s: State) {
        State::Port2Ctrl12(r)
    }
}

impl vstd::std_specs::convert::FromSpecImpl<Port2Ctrl12> for State {
    open spec fn obeys_from_spec() -> bool {
        true
    }

    open spec fn from_spec(r: Port2Ctrl12) -> State {
        State::Port2Ctrl12(r)
    }
}

impl core::convert::TryFrom<State> for Port2Ctrl12 {
    type Error = InvalidAddress;

    fn try_from(s: State) -> (r: Result<Port2Ctrl12, InvalidAddress>) {
        match s {
            State::Port2Ctrl12(r) => Ok(r),
            _ => Err(InvalidAddress),
        }
    }
}

impl vstd::std_specs::convert::TryFromSpecImpl<State> for Port2Ctrl12 {
    open spec fn obeys_try_from_spec() -> bool {
        true
    }

    open spec fn try_from_spec(s: State) -> Result<Port2Ctrl12, InvalidAddress> {
        match s {
            State::Port2Ctrl12(r) => Ok(r),
            _ => Err(InvalidAddress),
        }
    }
}

impl Port2Ctrl12 {
    /// Provides read access to the individual fields of the register.
    pub fn read(&self) -> (r: R<Port2Ctrl12>)
        ensures
            r.0 == *self,
    {
        R(*self)
    }

    /// Provides write access to the individual fields of the register.
    pub fn write(self) -> (w: W<Port2Ctrl12>)
        ensures
            w.0 == self,
    {
        W(self)
    }
}

impl R<Port2Ctrl12> {
    /// Read access to the `an_enable` field.
    pub fn an_enable(&self) -> (f: BitR)
        ensures
            f.bit == (self.0@ & 0x80 != 0),
    {
        BitR { bit: self.0.bits & 0x80 != 0 }
    }

    /// Read access to the `force_speed` field.
    pub fn force_speed(&self) -> (f: BitR)
        ensures
            f.bit == (self.0@ & 0x40 != 0),
    {
        BitR { bit: self.0.bits & 0x40 != 0 }
    }

    /// Read access to the `force_duplex` field.
    pub fn force_duplex(&self) -> (f: BitR)
        ensures
            f.bit == (self.0@ & 0x20 != 0),
    {
        BitR { bit: self.0.bits & 0x20 != 0 }
    }

    /// Read access to the `adv_flow_ctrl` field.
    pub fn adv_flow_ctrl(&self) -> (f: BitR)
        ensures
            f.bit == (self.0@ & 0x10 != 0),
    {
        BitR { bit: self.0.bits & 0x10 != 0 }
    }

    /// Read access to the `adv_100_fd` field.
    pub fn adv_100_fd(&self) -> (f: BitR)
        ensures
            f.bit == (self.0@ & 0x08 != 0),
    {
        BitR { bit: self.0.bits & 0x08 != 0 }
    }

    /// Read access to the `adv_100_hd` field.
    pub fn adv_100_hd(&self) -> (f: BitR)
        ensures
            f.bit == (self.0@ & 0x04 != 0),
    {
        BitR { bit: self.0.bits & 0x04 != 0 }
    }

    /// Read access to the `adv_10_fd` field.
    pub fn adv_10_fd(&self) -> (f: BitR)
        ensures
            f.bit == (self.0@ & 0x02 != 0),
    {
        BitR { bit: self.0.bits & 0x02 != 0 }
    }

    /// Read access to the `adv_10_hd` field.
    pub fn adv_10_hd(&self) -> (f: BitR)
        ensures
            f.bit == (self.0@ & 0x01 != 0),
    {
        BitR { bit: self.0.bits & 0x01 != 0 }
    }
}

impl W<Port2Ctrl12> {
    /// Write access to the `an_enable` field.
    pub fn an_enable(self) -> (f: BitW<Port2Ctrl12>)
        ensures
            f.w == self,
            f.mask == 0x80,
    {
        BitW { w: self, mask: 0x80 }
    }

    /// Write access to the `force_speed` field.
    pub fn force_speed(self) -> (f: BitW<Port2Ctrl12>)
        ensures
            f.w == self,
            f.mask == 0x40,
    {
        BitW { w: self, mask: 0x40 }
    }

    /// Write access to the `force_duplex` field.
    pub fn force_duplex(self) -> (f: BitW<Port2Ctrl12>)
        ensures
            f.w == self,
            f.mask == 0x20,
    {
        BitW { w: self, mask: 0x20 }
    }

    /// Write access to the `adv_flow_ctrl` field.
    pub fn adv_flow_ctrl(self) -> (f: BitW<Port2Ctrl12>)
        ensures
            f.w == self,
            f.mask == 0x10,
    {
        BitW { w: self, mask: 0x10 }
    }

    /// Write access to the `adv_100_fd` field.
    pub fn adv_100_fd(self) -> (f: BitW<Port2Ctrl12>)
        ensures
            f.w == self,
            f.mask == 0x08,
    {
        BitW { w: self, mask: 0x08 }
    }

    /// Write access to the `adv_100_hd` field.
    pub fn adv_100_hd(self) -> (f: BitW<Port2Ctrl12>)
        ensures
            f.w == self,
            f.mask == 0x04,
    {
        BitW { w: self, mask: 0x04 }
    }

    /// Write access to the `adv_10_fd` field.
    pub fn adv_10_fd(self) -> (f: BitW<Port2Ctrl12>)
        ensures
            f.w == self,
            f.mask == 0x02,
    {
        BitW { w: self, mask: 0x02 }
    }

    /// Write access to the `adv_10_hd` field.
    pub fn adv_10_hd(self) -> (f: BitW<Port2Ctrl12>)
        ensures
            f.w == self,
            f.mask == 0x01,
    {
        BitW { w: self, mask: 0x01 }
    }
}

/// The `Port2Ctrl13` register, at address `0x2d`.
#[derive(Clone, Copy, Debug, PartialEq, Eq, Structural, Hash)]
pub struct Port2Ctrl13 {
    bits: u8,
}

impl View for Port2Ctrl13 {
    type V = u8;

    closed spec fn view(&self) -> u8 {
        self.bits
    }
}

impl Register for Port2Ctrl13 {
    open spec fn spec_address() -> Address {
        Address::Port2Ctrl13
    }

    closed spec fn spec_from_bits(bits: u8) -> Port2Ctrl13 {
        Port2Ctrl13 { bits }
    }

    proof fn lemma_from_bits(bits: u8) {
    }

    fn address() -> (a: Address) {
        Address::Port2Ctrl13
    }

    fn from_bits(bits: u8) -> (r: Port2Ctrl13) {
        Port2Ctrl13 { bits }
    }

    fn to_bits(&self) -> (b: u8) {
        self.bits
    }
}

impl Default for Port2Ctrl13 {
    fn default() -> (r: Port2Ctrl13)
        ensures
            r@ == default_bits(Address::Port2Ctrl13),
    {
        Port2Ctrl13 { bits: 0x00 }
    }
}

impl From<u8> for Port2Ctrl13 {
    fn from(bits: u8) -> (r: Port2Ctrl13) {
        Port2Ctrl13 { bits }
    }
}

impl vstd::std_specs::convert::FromSpecImpl<u8> for Port2Ctrl13 {
    open spec fn obeys_from_spec() -> bool {
        true
    }

    open spec fn from_spec(bits: u8) -> Port2Ctrl13 {
        <Port2Ctrl13 as Register>::spec_from_bits(bits)
    }
}

impl From<Port2Ctrl13> for u8 {
    fn from(r: Port2Ctrl13) -> (bits: u8) {
        r.bits
    }
}

impl vstd::std_specs::convert::FromSpecImpl<Port2Ctrl13> for u8 {
    open spec fn obeys_from_spec() -> bool {
        true
    }

    open spec fn from_spec(r: Port2Ctrl13) -> u8 {
        r@
    }
}

impl From<Port2Ctrl13> for State {
    fn from(r: Port2Ctrl13) -> (s: State) {
        State::Port2Ctrl13(r)
    }
}

impl vstd::std_specs::convert::FromSpecImpl<Port2Ctrl13> for State {
    open spec fn obeys_from_spec() -> bool {
        true
    }

    open spec fn from_spec(r: Port2Ctrl13) -> State {
        State::Port2Ctrl13(r)
    }
}

impl core::convert::TryFrom<State> for Port2Ctrl13 {
    type Error = InvalidAddress;

    fn try_from(s: State) -> (r: Result<Port2Ctrl13, InvalidAddress>) {
        match s {
            State::Port2Ctrl13(r) => Ok(r),
            _ => Err(InvalidAddress),
        }
    }
}

impl vstd::std_specs::convert::TryFromSpecImpl<State> for Port2Ctrl13 {
    open spec fn obeys_try_from_spec() -> bool {
        true
    }

    open spec fn try_from_spec(s: State) -> Result<Port2Ctrl13, InvalidAddress> {
        match s {
            State::Port2Ctrl13(r) => Ok(r),
            _ => Err(InvalidAddress),
        }
    }
}

impl Port2Ctrl13 {
    /// Provides read access to the individual fields of the register.
    pub fn read(&self) -> (r: R<Port2Ctrl13>)
        ensures
            r.0 == *self,
    {
        R(*self)
    }

    /// Provides write access to the individual fields of the register.
    pub fn write(self) -> (w: W<Port2Ctrl13>)
        ensures
            w.0 == self,
    {
        W(self)
    }
}

impl R<Port2Ctrl13> {
    /// Read access to the `led_off` field.
    pub fn led_off(&self) -> (f: BitR)
        ensures
            f.bit == (self.0@ & 0x80 != 0),
    {
        BitR { bit: self.0.bits & 0x80 != 0 }
    }

    /// Read access to the `disable_tx` field.
    pub fn disable_tx(&self) -> (f: BitR)
        ensures
            f.bit == (self.0@ & 0x40 != 0),
    {
        BitR { bit: self.0.bits & 0x40 != 0 }
    }

    /// Read access to the `restart_an` field.
    pub fn restart_an(&self) -> (f: BitR)
        ensures
            f.bit == (self.0@ & 0x20 != 0),
    {
        BitR { bit: self.0.bits & 0x20 != 0 }
    }

    /// Read access to the `disable_far_end_fault` field.
    pub fn disable_far_end_fault(&self) -> (f: BitR)
        ensures
            f.bit == (self.0@ & 0x10 != 0),
    {
        BitR { bit: self.0.bits & 0x10 != 0 }
    }

    /// Read access to the `power_down` field.
    pub fn power_down(&self) -> (f: BitR)
        ensures
            f.bit == (self.0@ & 0x08 != 0),
    {
        BitR { bit: self.0.bits & 0x08 != 0 }
    }

    /// Read access to the `disable_auto_mdix` field.
    pub fn disable_auto_mdix(&self) -> (f: BitR)
        ensures
            f.bit == (self.0@ & 0x04 != 0),
    {
        BitR { bit: self.0.bits & 0x04 != 0 }
    }

    /// Read access to the `force_mdi` field.
    pub fn force_mdi(&self) -> (f: BitR)
        ensures
            f.bit == (self.0@ & 0x02 != 0),
    {
        BitR { bit: self.0.bits & 0x02 != 0 }
    }

    /// Read access to the `loopback` field.
    pub fn loopback(&self) -> (f: BitR)
        ensures
            f.bit == (self.0@ & 0x01 != 0),
    {
        BitR { bit: self.0.bits & 0x01 != 0 }
    }
}

impl W<Port2Ctrl13> {
    /// Write access to the `led_off` field.
    pub fn led_off(self) -> (f: BitW<Port2Ctrl13>)
        ensures
            f.w == self,
            f.mask == 0x80,
    {
        BitW { w: self, mask: 0x80 }
    }

    /// Write access to the `disable_tx` field.
    pub fn disable_tx(self) -> (f: BitW<Port2Ctrl13>)
        ensures
            f.w == self,
            f.mask == 0x40,
    {
        BitW { w: self, mask: 0x40 }
    }

    /// Write access to the `restart_an` field.
    pub fn restart_an(self) -> (f: BitW<Port2Ctrl13>)
        ensures
            f.w == self,
            f.mask == 0x20,
    {
        BitW { w: self, mask: 0x20 }
    }

    /// Write access to the `disable_far_end_fault` field.
    pub fn disable_far_end_fault(self) -> (f: BitW<Port2Ctrl13>)
        ensures
            f.w == self,
            f.mask == 0x10,
    {
        BitW { w: self, mask: 0x10 }
    }

    /// Write access to the `power_down` field.
    pub fn power_down(self) -> (f: BitW<Port2Ctrl13>)
        ensures
            f.w == self,
            f.mask == 0x08,
    {
        BitW { w: self, mask: 0x08 }
    }

    /// Write access to the `disable_auto_mdix` field.
    pub fn disable_auto_mdix(self) -> (f: BitW<Port2Ctrl13>)
        ensures
            f.w == self,
            f.mask == 0x04,
    {
        BitW { w: self, mask: 0x04 }
    }

    /// Write access to the `force_mdi` field.
    pub fn force_mdi(self) -> (f: BitW<Port2Ctrl13>)
        ensures
            f.w == self,
            f.mask == 0x02,
    {
        BitW { w: self, mask: 0x02 }
    }

    /// Write access to the `loopback` field.
    pub fn loopback(self) -> (f: BitW<Port2Ctrl13>)
        ensures
            f.w == self,
            f.mask == 0x01,
    {
        BitW { w: self, mask: 0x01 }
    }
}

/// The `Port2Status0` register, at address `0x2e`.
#[derive(Clone, Copy, Debug, PartialEq, Eq, Structural, Hash)]
pub struct Port2Status0 {
    bits: u8,
}

impl View for Port2Status0 {
    type V = u8;

    closed spec fn view(&self) -> u8 {
        self.bits
    }
}

impl Register for Port2Status0 {
    open spec fn spec_address() -> Address {
        Address::Port2Status0
    }

    closed spec fn spec_from_bits(bits: u8) -> Port2Status0 {
        Port2Status0 { bits }
    }

    proof fn lemma_from_bits(bits: u8) {
    }

    fn address() -> (a: Address) {
        Address::Port2Status0
    }

    fn from_bits(bits: u8) -> (r: Port2Status0) {
        Port2Status0 { bits }
    }

    fn to_bits(&self) -> (b: u8) {
        self.bits
    }
}

impl Default for Port2Status0 {
    fn default() -> (r: Port2Status0)
        ensures
            r@ == default_bits(Address::Port2Status0),
    {
        Port2Status0 { bits: 0x00 }
    }
}

impl From<u8> for Port2Status0 {
    fn from(bits: u8) -> (r: Port2Status0) {
        Port2Status0 { bits }
    }
}

impl vstd::std_specs::convert::FromSpecImpl<u8> for Port2Status0 {
    open spec fn obeys_from_spec() -> bool {
        true
    }

    open spec fn from_spec(bits: u8) -> Port2Status0 {
        <Port2Status0 as Register>::spec_from_bits(bits)
    }
}

impl From<Port2Status0> for u8 {
    fn from(r: Port2Status0) -> (bits: u8) {
        r.bits
    }
}

impl vstd::std_specs::convert::FromSpecImpl<Port2Status0> for u8 {
    open spec fn obeys_from_spec() -> bool {
        true
    }

    open spec fn from_spec(r: Port2Status0) -> u8 {
        r@
    }
}

impl From<Port2Status0> for State {
    fn from(r: Port2Status0) -> (s: State) {
        State::Port2Status0(r)
    }
}

impl vstd::std_specs::convert::FromSpecImpl<Port2Status0> for State {
    open spec fn obeys_from_spec() -> bool {
        true
    }

    open spec fn from_spec(r: Port2Status0) -> State {
        State::Port2Status0(r)
    }
}

impl core::convert::TryFrom<State> for Port2Status0 {
    type Error = InvalidAddress;

    fn try_from(s: State) -> (r: Result<Port2Status0, InvalidAddress>) {
        match s {
            State::Port2Status0(r) => Ok(r),
            _ => Err(InvalidAddress),
        }
    }
}

impl vstd::std_specs::convert::TryFromSpecImpl<State> for Port2Status0 {
    open spec fn obeys_try_from_spec() -> bool {
        true
    }

    open spec fn try_from_spec(s: State) -> Result<Port2Status0, InvalidAddress> {
        match s {
            State::Port2Status0(r) => Ok(r),
            _ => Err(InvalidAddress),
        }
    }
}

impl Port2Status0 {
    /// Provides read access to the individual fields of the register.
    pub fn read(&self) -> (r: R<Port2Status0>)
        ensures
            r.0 == *self,
    {
        R(*self)
    }

    /// Provides write access to the individual fields of the register.
    pub fn write(self) -> (w: W<Port2Status0>)
        ensures
            w.0 == self,
    {
        W(self)
    }
}

impl R<Port2Status0> {
    /// Read access to the `mdix_status` field.
    pub fn mdix_status(&self) -> (f: BitR)
        ensures
            f.bit == (self.0@ & 0x80 != 0),
    {
        BitR { bit: self.0.bits & 0x80 != 0 }
    }

    /// Read access to the `an_done` field.
    pub fn an_done(&self) -> (f: BitR)
        ensures
            f.bit == (self.0@ & 0x40 != 0),
    {
        BitR { bit: self.0.bits & 0x40 != 0 }
    }

    /// Read access to the `link_good` field.
    pub fn link_good(&self) -> (f: BitR)
        ensures
            f.bit == (self.0@ & 0x20 != 0),
    {
        BitR { bit: self.0.bits & 0x20 != 0 }
    }

    /// Read access to the `partner_flow_ctrl` field.
    pub fn partner_flow_ctrl(&self) -> (f: BitR)
        ensures
            f.bit == (self.0@ & 0x10 != 0),
    {
        BitR { bit: self.0.bits & 0x10 != 0 }
    }

    /// Read access to the `partner_100_fd` field.
    pub fn partner_100_fd(&self) -> (f: BitR)
        ensures
            f.bit == (self.0@ & 0x08 != 0),
    {
        BitR { bit: self.0.bits & 0x08 != 0 }
    }

    /// Read access to the `partner_100_hd` field.
    pub fn partner_100_hd(&self) -> (f: BitR)
        ensures
            f.bit == (self.0@ & 0x04 != 0),
    {
        BitR { bit: self.0.bits & 0x04 != 0 }
    }

    /// Read access to the `partner_10_fd` field.
    pub fn partner_10_fd(&self) -> (f: BitR)
        ensures
            f.bit == (self.0@ & 0x02 != 0),
    {
        BitR { bit: self.0.bits & 0x02 != 0 }
    }

    /// Read access to the `partner_10_hd` field.
    pub fn partner_10_hd(&self) -> (f: BitR)
        ensures
            f.bit == (self.0@ & 0x01 != 0),
    {
        BitR { bit: self.0.bits & 0x01 != 0 }
    }
}

/// The `Port2Status1` register, at address `0x2f`.
#[derive(Clone, Copy, Debug, PartialEq, Eq, Structural, Hash)]
pub struct Port2Status1 {
    bits: u8,
}

impl View for Port2Status1 {
    type V = u8;

    closed spec fn view(&self) -> u8 {
        self.bits
    }
}

impl Register for Port2Status1 {
    open spec fn spec_address() -> Address {
        Address::Port2Status1
    }

    closed spec fn spec_from_bits(bits: u8) -> Port2Status1 {
        Port2Status1 { bits }
    }

    proof fn lemma_from_bits(bits: u8) {
    }

    fn address() -> (a: Address) {
        Address::Port2Status1
    }

    fn from_bits(bits: u8) -> (r: Port2Status1) {
        Port2Status1 { bits }
    }

    fn to_bits(&self) -> (b: u8) {
        self.bits
    }
}

impl Default for Port2Status1 {
    fn default() -> (r: Port2Status1)
        ensures
            r@ == default_bits(Address::Port2Status1),
    {
        Port2Status1 { bits: 0x80 }
    }
}

impl From<u8> for Port2Status1 {
    fn from(bits: u8) -> (r: Port2Status1) {
        Port2Status1 { bits }
    }
}

impl vstd::std_specs::convert::FromSpecImpl<u8> for Port2Status1 {
    open spec fn obeys_from_spec() -> bool {
        true
    }

    open spec fn from_spec(bits: u8) -> Port2Status1 {
        <Port2Status1 as Register>::spec_from_bits(bits)
    }
}

impl From<Port2Status1> for u8 {
    fn from(r: Port2Status1) -> (bits: u8) {
        r.bits
    }
}

impl vstd::std_specs::convert::FromSpecImpl<Port2Status1> for u8 {
    open spec fn obeys_from_spec() -> bool {
        true
    }

    open spec fn from_spec(r: Port2Status1) -> u8 {
        r@
    }
}

impl From<Port2Status1> for State {
    fn from(r: Port2Status1) -> (s: State) {
        State::Port2Status1(r)
    }
}

impl vstd::std_specs::convert::FromSpecImpl<Port2Status1> for State {
    open spec fn obeys_from_spec() -> bool {
        true
    }

    open spec fn from_spec(r: Port2Status1) -> State {
        State::Port2Status1(r)
    }
}

impl core::convert::TryFrom<State> for Port2Status1 {
    type Error = InvalidAddress;

    fn try_from(s: State) -> (r: Result<Port2Status1, InvalidAddress>) {
        match s {
            State::Port2Status1(r) => Ok(r),
            _ => Err(InvalidAddress),
        }
    }
}

impl vstd::std_specs::convert::TryFromSpecImpl<State> for Port2Status1 {
    open spec fn obeys_try_from_spec() -> bool {
        true
    }

    open spec fn try_from_spec(s: State) -> Result<Port2Status1, InvalidAddress> {
        match s {
            State::Port2Status1(r) => Ok(r),
            _ => Err(InvalidAddress),
        }
    }
}

impl Port2Status1 {
    /// Provides read access to the individual fields of the register.
    pub fn read(&self) -> (r: R<Port2Status1>)
        ensures
            r.0 == *self,
    {
        R(*self)
    }

    /// Provides write access to the individual fields of the register.
    pub fn write(self) -> (w: W<Port2Status1>)
        ensures
            w.0 == self,
    {
        W(self)
    }
}

impl R<Port2Status1> {
    /// Read access to the `hp_mdix` field.
    pub fn hp_mdix(&self) -> (f: BitR)
        ensures
            f.bit == (self.0@ & 0x80 != 0),
    {
        BitR { bit: self.0.bits & 0x80 != 0 }
    }

    /// Read access to the `polarity_reversed` field.
    pub fn polarity_reversed(&self) -> (f: BitR)
        ensures
            f.bit == (self.0@ & 0x20 != 0),
    {
        BitR { bit: self.0.bits & 0x20 != 0 }
    }

    /// Read access to the `tx_flow_ctrl` field.
    pub fn tx_flow_ctrl(&self) -> (f: BitR)
        ensures
            f.bit == (self.0@ & 0x10 != 0),
    {
        BitR { bit: self.0.bits & 0x10 != 0 }
    }

    /// Read access to the `rx_flow_ctrl` field.
    pub fn rx_flow_ctrl(&self) -> (f: BitR)
        ensures
            f.bit == (self.0@ & 0x08 != 0),
    {
        BitR { bit: self.0.bits & 0x08 != 0 }
    }

    /// Read access to the `operation_speed` field.
    pub fn operation_speed(&self) -> (f: BitR)
        ensures
            f.bit == (self.0@ & 0x04 != 0),
    {
        BitR { bit: self.0.bits & 0x04 != 0 }
    }

    /// Read access to the `operation_duplex` field.
    pub fn operation_duplex(&self) -> (f: BitR)
        ensures
            f.bit == (self.0@ & 0x02 != 0),
    {
        BitR { bit: self.0.bits & 0x02 != 0 }
    }

    /// Read access to the `far_end_fault` field.
    pub fn far_end_fault(&self) -> (f: BitR)
        ensures
            f.bit == (self.0@ & 0x01 != 0),
    {
        BitR { bit: self.0.bits & 0x01 != 0 }
    }
}

/// The `Port3Ctrl0` register, at address `0x30`.
#[derive(Clone, Copy, Debug, PartialEq, Eq, Structural, Hash)]
pub struct Port3Ctrl0 {
    bits: u8,
}

impl View for Port3Ctrl0 {
    type V = u8;

    closed spec fn view(&self) -> u8 {
        self.bits
    }
}

impl Register for Port3Ctrl0 {
    open spec fn spec_address() -> Address {
        Address::Port3Ctrl0
    }

    closed spec fn spec_from_bits(bits: u8) -> Port3Ctrl0 {
        Port3Ctrl0 { bits }
    }

    proof fn lemma_from_bits(bits: u8) {
    }

    fn address() -> (a: Address) {
        Address::Port3Ctrl0
    }

    fn from_bits(bits: u8) -> (r: Port3Ctrl0) {
        Port3Ctrl0 { bits }
    }

    fn to_bits(&self) -> (b: u8) {
        self.bits
    }
}

impl Default for Port3Ctrl0 {
    fn default() -> (r: Port3Ctrl0)
        ensures
            r@ == default_bits(Address::Port3Ctrl0),
    {
        Port3Ctrl0 { bits: 0x00 }
    }
}

impl From<u8> for Port3Ctrl0 {
    fn from(bits: u8) -> (r: Port3Ctrl0) {
        Port3Ctrl0 { bits }
    }
}

impl vstd::std_specs::convert::FromSpecImpl<u8> for Port3Ctrl0 {
    open spec fn obeys_from_spec() -> bool {
        true
    }

    open spec fn from_spec(bits: u8) -> Port3Ctrl0 {
        <Port3Ctrl0 as Register>::spec_from_bits(bits)
    }
}

impl From<Port3Ctrl0> for u8 {
    fn from(r: Port3Ctrl0) -> (bits: u8) {
        r.bits
    }
}

impl vstd::std_specs::convert::FromSpecImpl<Port3Ctrl0> for u8 {
    open spec fn obeys_from_spec() -> bool {
        true
    }

    open spec fn from_spec(r: Port3Ctrl0) -> u8 {
        r@
    }
}

impl From<Port3Ctrl0> for State {
    fn from(r: Port3Ctrl0) -> (s: State) {
        State::Port3Ctrl0(r)
    }
}

impl vstd::std_specs::convert::FromSpecImpl<Port3Ctrl0> for State {
    open spec fn obeys_from_spec() -> bool {
        true
    }

    open spec fn from_spec(r: Port3Ctrl0) -> State {
        State::Port3Ctrl0(r)
    }
}

impl core::convert::TryFrom<State> for Port3Ctrl0 {
    type Error = InvalidAddress;

    fn try_from(s: State) -> (r: Result<Port3Ctrl0, InvalidAddress>) {
        match s {
            State::Port3Ctrl0(r) => Ok(r),
            _ => Err(InvalidAddress),
        }
    }
}

impl vstd::std_specs::convert::TryFromSpecImpl<State> for Port3Ctrl0 {
    open spec fn obeys_try_from_spec() -> bool {
        true
    }

    open spec fn try_from_spec(s: State) -> Result<Port3Ctrl0, InvalidAddress> {
        match s {
            State::Port3Ctrl0(r) => Ok(r),
            _ => Err(InvalidAddress),
        }
    }
}

impl Port3Ctrl0 {
    /// Provides read access to the individual fields of the register.
    pub fn read(&self) -> (r: R<Port3Ctrl0>)
        ensures
            r.0 == *self,
    {
        R(*self)
    }

    /// Provides write access to the individual fields of the register.
    pub fn write(self) -> (w: W<Port3Ctrl0>)
        ensures
            w.0 == self,
    {
        W(self)
    }
}

impl R<Port3Ctrl0> {
    /// Read access to the `broadcast_storm_protection` field.
    pub fn broadcast_storm_protection(&self) -> (f: BitR)
        ensures
            f.bit == (self.0@ & 0x80 != 0),
    {
        BitR { bit: self.0.bits & 0x80 != 0 }
    }

    /// Read access to the `diff_serv_priority_classification` field.
    pub fn diff_serv_priority_classification(&self) -> (f: BitR)
        ensures
            f.bit == (self.0@ & 0x40 != 0),
    {
        BitR { bit: self.0.bits & 0x40 != 0 }
    }

    /// Read access to the `ieee_priority_classification` field.
    pub fn ieee_priority_classification(&self) -> (f: BitR)
        ensures
            f.bit == (self.0@ & 0x20 != 0),
    {
        BitR { bit: self.0.bits & 0x20 != 0 }
    }

    /// Read access to the `port_based_priority_classification` field.
    pub fn port_based_priority_classification(&self) -> (f: BitsR<u8>)
        ensures
            f.bits == load8(self.0@, 0x18, 3),
    {
        BitsR { bits: (self.0.bits & 0x18) >> 3u8 }
    }

    /// Read access to the `tag_insertion` field.
    pub fn tag_insertion(&self) -> (f: BitR)
        ensures
            f.bit == (self.0@ & 0x04 != 0),
    {
        BitR { bit: self.0.bits & 0x04 != 0 }
    }

    /// Read access to the `tag_removal` field.
    pub fn tag_removal(&self) -> (f: BitR)
        ensures
            f.bit == (self.0@ & 0x02 != 0),
    {
        BitR { bit: self.0.bits & 0x02 != 0 }
    }

    /// Read access to the `txq_split` field.
    pub fn txq_split(&self) -> (f: BitR)
        ensures
            f.bit == (self.0@ & 0x01 != 0),
    {
        BitR { bit: self.0.bits & 0x01 != 0 }
    }
}

impl W<Port3Ctrl0> {
    /// Write access to the `broadcast_storm_protection` field.
    pub fn broadcast_storm_protection(self) -> (f: BitW<Port3Ctrl0>)
        ensures
            f.w == self,
            f.mask == 0x80,
    {
        BitW { w: self, mask: 0x80 }
    }

    /// Write access to the `diff_serv_priority_classification` field.
    pub fn diff_serv_priority_classification(self) -> (f: BitW<Port3Ctrl0>)
        ensures
            f.w == self,
            f.mask == 0x40,
    {
        BitW { w: self, mask: 0x40 }
    }

    /// Write access to the `ieee_priority_classification` field.
    pub fn ieee_priority_classification(self) -> (f: BitW<Port3Ctrl0>)
        ensures
            f.w == self,
            f.mask == 0x20,
    {
        BitW { w: self, mask: 0x20 }
    }

    /// Write access to the `port_based_priority_classification` field.
    pub fn port_based_priority_classification(self) -> (f: BitsW<Port3Ctrl0>)
        ensures
            f.w == self,
            f.mask == 0x18,
            f.shift == 3,
    {
        BitsW { w: self, mask: 0x18, shift: 3 }
    }

    /// Write access to the `tag_insertion` field.
    pub fn tag_insertion(self) -> (f: BitW<Port3Ctrl0>)
        ensures
            f.w == self,
            f.mask == 0x04,
    {
        BitW { w: self, mask: 0x04 }
    }

    /// Write access to the `tag_removal` field.
    pub fn tag_removal(self) -> (f: BitW<Port3Ctrl0>)
        ensures
            f.w == self,
            f.mask == 0x02,
    {
        BitW { w: self, mask: 0x02 }
    }

    /// Write access to the `txq_split` field.
    pub fn txq_split(self) -> (f: BitW<Port3Ctrl0>)
        ensures
            f.w == self,
            f.mask == 0x01,
    {
        BitW { w: self, mask: 0x01 }
    }
}

/// The `Port3Ctrl1` register, at address `0x31`.
#[derive(Clone, Copy, Debug, PartialEq, Eq, Structural, Hash)]
pub struct Port3Ctrl1 {
    bits: u8,
}

impl View for Port3Ctrl1 {
    type V = u8;

    closed spec fn view(&self) -> u8 {
        self.bits
    }
}

impl Register for Port3Ctrl1 {
    open spec fn spec_address() -> Address {
        Address::Port3Ctrl1
    }

    closed spec fn spec_from_bits(bits: u8) -> Port3Ctrl1 {
        Port3Ctrl1 { bits }
    }

    proof fn lemma_from_bits(bits: u8) {
    }

    fn address() -> (a: Address) {
        Address::Port3Ctrl1
    }

    fn from_bits(bits: u8) -> (r: Port3Ctrl1) {
        Port3Ctrl1 { bits }
    }

    fn to_bits(&self) -> (b: u8) {
        self.bits
    }
}

impl Default for Port3Ctrl1 {
    fn default() -> (r: Port3Ctrl1)
        ensures
            r@ == default_bits(Address::Port3Ctrl1),
    {
        Port3Ctrl1 { bits: 0x07 }
    }
}

impl From<u8> for Port3Ctrl1 {
    fn from(bits: u8) -> (r: Port3Ctrl1) {
        Port3Ctrl1 { bits }
    }
}

impl vstd::std_specs::convert::FromSpecImpl<u8> for Port3Ctrl1 {
    open spec fn obeys_from_spec() -> bool {
        true
    }

    open spec fn from_spec(bits: u8) -> Port3Ctrl1 {
        <Port3Ctrl1 as Register>::spec_from_bits(bits)
    }
}

impl From<Port3Ctrl1> for u8 {
    fn from(r: Port3Ctrl1) -> (bits: u8) {
        r.bits
    }
}

impl vstd::std_specs::convert::FromSpecImpl<Port3Ctrl1> for u8 {
    open spec fn obeys_from_spec() -> bool {
        true
    }

    open spec fn from_spec(r: Port3Ctrl1) -> u8 {
        r@
    }
}

impl From<Port3Ctrl1> for State {
    fn from(r: Port3Ctrl1) -> (s: State) {
        State::Port3Ctrl1(r)
    }
}

impl vstd::std_specs::convert::FromSpecImpl<Port3Ctrl1> for State {
    open spec fn obeys_from_spec() -> bool {
        true
    }

    open spec fn from_spec(r: Port3Ctrl1) -> State {
        State::Port3Ctrl1(r)
    }
}

impl core::convert::TryFrom<State> for Port3Ctrl1 {
    type Error = InvalidAddress;

    fn try_from(s: State) -> (r: Result<Port3Ctrl1, InvalidAddress>) {
        match s {
            State::Port3Ctrl1(r) => Ok(r),
            _ => Err(InvalidAddress),
        }
    }
}

impl vstd::std_specs::convert::TryFromSpecImpl<State> for Port3Ctrl1 {
    open spec fn obeys_try_from_spec() -> bool {
        true
    }

    open spec fn try_from_spec(s: State) -> Result<Port3Ctrl1, InvalidAddress> {
        match s {
            State::Port3Ctrl1(r) => Ok(r),
            _ => Err(InvalidAddress),
        }
    }
}

impl Port3Ctrl1 {
    /// Provides read access to the individual fields of the register.
    pub fn read(&self) -> (r: R<Port3Ctrl1>)
        ensures
            r.0 == *self,
    {
        R(*self)
    }

    /// Provides write access to the individual fields of the register.
    pub fn write(self) -> (w: W<Port3Ctrl1>)
        ensures
            w.0 == self,
    {
        W(self)
    }
}

impl R<Port3Ctrl1> {
    /// Read access to the `sniffer_port` field.
    pub fn sniffer_port(&self) -> (f: BitR)
        ensures
            f.bit == (self.0@ & 0x80 != 0),
    {
        BitR { bit: self.0.bits & 0x80 != 0 }
    }

    /// Read access to the `receive_sniff` field.
    pub fn receive_sniff(&self) -> (f: BitR)
        ensures
            f.bit == (self.0@ & 0x40 != 0),
    {
        BitR { bit: self.0.bits & 0x40 != 0 }
    }

    /// Read access to the `transmit_sniff` field.
    pub fn transmit_sniff(&self) -> (f: BitR)
        ensures
            f.bit == (self.0@ & 0x20 != 0),
    {
        BitR { bit: self.0.bits & 0x20 != 0 }
    }

    /// Read access to the `double_tag` field.
    pub fn double_tag(&self) -> (f: BitR)
        ensures
            f.bit == (self.0@ & 0x10 != 0),
    {
        BitR { bit: self.0.bits & 0x10 != 0 }
    }

    /// Read access to the `user_priority_ceiling` field.
    pub fn user_priority_ceiling(&self) -> (f: BitR)
        ensures
            f.bit == (self.0@ & 0x08 != 0),
    {
        BitR { bit: self.0.bits & 0x08 != 0 }
    }

    /// Read access to the `port_vlan_membership` field.
    pub fn port_vlan_membership(&self) -> (f: BitsR<u8>)
        ensures
            f.bits == load8(self.0@, 0x07, 0),
    {
        BitsR { bits: (self.0.bits & 0x07) >> 0u8 }
    }
}

impl W<Port3Ctrl1> {
    /// Write access to the `sniffer_port` field.
    pub fn sniffer_port(self) -> (f: BitW<Port3Ctrl1>)
        ensures
            f.w == self,
            f.mask == 0x80,
    {
        BitW { w: self, mask: 0x80 }
    }

    /// Write access to the `receive_sniff` field.
    pub fn receive_sniff(self) -> (f: BitW<Port3Ctrl1>)
        ensures
            f.w == self,
            f.mask == 0x40,
    {
        BitW { w: self, mask: 0x40 }
    }

    /// Write access to the `transmit_sniff` field.
    pub fn transmit_sniff(self) -> (f: BitW<Port3Ctrl1>)
        ensures
            f.w == self,
            f.mask == 0x20,
    {
        BitW { w: self, mask: 0x20 }
    }

    /// Write access to the `double_tag` field.
    pub fn double_tag(self) -> (f: BitW<Port3Ctrl1>)
        ensures
            f.w == self,
            f.mask == 0x10,
    {
        BitW { w: self, mask: 0x10 }
    }

    /// Write access to the `user_priority_ceiling` field.
    pub fn user_priority_ceiling(self) -> (f: BitW<Port3Ctrl1>)
        ensures
            f.w == self,
            f.mask == 0x08,
    {
        BitW { w: self, mask: 0x08 }
    }

    /// Write access to the `port_vlan_membership` field.
    pub fn port_vlan_membership(self) -> (f: BitsW<Port3Ctrl1>)
        ensures
            f.w == self,
            f.mask == 0x07,
            f.shift == 0,
    {
        BitsW { w: self, mask: 0x07, shift: 0 }
    }
}

/// The `Port3Ctrl2` register, at address `0x32`.
#[derive(Clone, Copy, Debug, PartialEq, Eq, Structural, Hash)]
pub struct Port3Ctrl2 {
    bits: u8,
}

impl View for Port3Ctrl2 {
    type V = u8;

    closed spec fn view(&self) -> u8 {
        self.bits
    }
}

impl Register for Port3Ctrl2 {
    open spec fn spec_address() -> Address {
        Address::Port3Ctrl2
    }

    closed spec fn spec_from_bits(bits: u8) -> Port3Ctrl2 {
        Port3Ctrl2 { bits }
    }

    proof fn lemma_from_bits(bits: u8) {
    }

    fn address() -> (a: Address) {
        Address::Port3Ctrl2
    }

    fn from_bits(bits: u8) -> (r: Port3Ctrl2) {
        Port3Ctrl2 { bits }
    }

    fn to_bits(&self) -> (b: u8) {
        self.bits
    }
}

impl Default for Port3Ctrl2 {
    fn default() -> (r: Port3Ctrl2)
        ensures
            r@ == default_bits(Address::Port3Ctrl2),
    {
        Port3Ctrl2 { bits: 0x06 }
    }
}

impl From<u8> for Port3Ctrl2 {
    fn from(bits: u8) -> (r: Port3Ctrl2) {
        Port3Ctrl2 { bits }
    }
}

impl vstd::std_specs::convert::FromSpecImpl<u8> for Port3Ctrl2 {
    open spec fn obeys_from_spec() -> bool {
        true
    }

    open spec fn from_spec(bits: u8) -> Port3Ctrl2 {
        <Port3Ctrl2 as Register>::spec_from_bits(bits)
    }
}

impl From<Port3Ctrl2> for u8 {
    fn from(r: Port3Ctrl2) -> (bits: u8) {
        r.bits
    }
}

impl vstd::std_specs::convert::FromSpecImpl<Port3Ctrl2> for u8 {
    open spec fn obeys_from_spec() -> bool {
        true
    }

    open spec fn from_spec(r: Port3Ctrl2) -> u8 {
        r@
    }
}

impl From<Port3Ctrl2> for State {
    fn from(r: Port3Ctrl2) -> (s: State) {
        State::Port3Ctrl2(r)
    }
}

impl vstd::std_specs::convert::FromSpecImpl<Port3Ctrl2> for State {
    open spec fn obeys_from_spec() -> bool {
        true
    }

    open spec fn from_spec(r: Port3Ctrl2) -> State {
        State::Port3Ctrl2(r)
    }
}

impl core::convert::TryFrom<State> for Port3Ctrl2 {
    type Error = InvalidAddress;

    fn try_from(s: State) -> (r: Result<Port3Ctrl2, InvalidAddress>) {
        match s {
            State::Port3Ctrl2(r) => Ok(r),
            _ => Err(InvalidAddress),
        }
    }
}

impl vstd::std_specs::convert::TryFromSpecImpl<State> for Port3Ctrl2 {
    open spec fn obeys_try_from_spec() -> bool {
        true
    }

    open spec fn try_from_spec(s: State) -> Result<Port3Ctrl2, InvalidAddress> {
        match s {
            State::Port3Ctrl2(r) => Ok(r),
            _ => Err(InvalidAddress),
        }
    }
}

impl Port3Ctrl2 {
    /// Provides read access to the individual fields of the register.
    pub fn read(&self) -> (r: R<Port3Ctrl2>)
        ensures
            r.0 == *self,
    {
        R(*self)
    }

    /// Provides write access to the individual fields of the register.
    pub fn write(self) -> (w: W<Port3Ctrl2>)
        ensures
            w.0 == self,
    {
        W(self)
    }
}

impl R<Port3Ctrl2> {
    /// Read access to the `enable_2_queue_split_tx` field.
    pub fn enable_2_queue_split_tx(&self) -> (f: BitR)
        ensures
            f.bit == (self.0@ & 0x80 != 0),
    {
        BitR { bit: self.0.bits & 0x80 != 0 }
    }

    /// Read access to the `ingress_vlan_filtering` field.
    pub fn ingress_vlan_filtering(&self) -> (f: BitR)
        ensures
            f.bit == (self.0@ & 0x40 != 0),
    {
        BitR { bit: self.0.bits & 0x40 != 0 }
    }

    /// Read access to the `discard_non_pvid_packets` field.
    pub fn discard_non_pvid_packets(&self) -> (f: BitR)
        ensures
            f.bit == (self.0@ & 0x20 != 0),
    {
        BitR { bit: self.0.bits & 0x20 != 0 }
    }

    /// Read access to the `back_pressure` field.
    pub fn back_pressure(&self) -> (f: BitR)
        ensures
            f.bit == (self.0@ & 0x08 != 0),
    {
        BitR { bit: self.0.bits & 0x08 != 0 }
    }

    /// Read access to the `transmit` field.
    pub fn transmit(&self) -> (f: BitR)
        ensures
            f.bit == (self.0@ & 0x04 != 0),
    {
        BitR { bit: self.0.bits & 0x04 != 0 }
    }

    /// Read access to the `receive` field.
    pub fn receive(&self) -> (f: BitR)
        ensures
            f.bit == (self.0@ & 0x02 != 0),
    {
        BitR { bit: self.0.bits & 0x02 != 0 }
    }

    /// Read access to the `learning_disable` field.
    pub fn learning_disable(&self) -> (f: BitR)
        ensures
            f.bit == (self.0@ & 0x01 != 0),
    {
        BitR { bit: self.0.bits & 0x01 != 0 }
    }
}

impl W<Port3Ctrl2> {
    /// Write access to the `enable_2_queue_split_tx` field.
    pub fn enable_2_queue_split_tx(self) -> (f: BitW<Port3Ctrl2>)
        ensures
            f.w == self,
            f.mask == 0x80,
    {
        BitW { w: self, mask: 0x80 }
    }

    /// Write access to the `ingress_vlan_filtering` field.
    pub fn ingress_vlan_filtering(self) -> (f: BitW<Port3Ctrl2>)
        ensures
            f.w == self,
            f.mask == 0x40,
    {
        BitW { w: self, mask: 0x40 }
    }

    /// Write access to the `discard_non_pvid_packets` field.
    pub fn discard_non_pvid_packets(self) -> (f: BitW<Port3Ctrl2>)
        ensures
            f.w == self,
            f.mask == 0x20,
    {
        BitW { w: self, mask: 0x20 }
    }

    /// Write access to the `back_pressure` field.
    pub fn back_pressure(self) -> (f: BitW<Port3Ctrl2>)
        ensures
            f.w == self,
            f.mask == 0x08,
    {
        BitW { w: self, mask: 0x08 }
    }

    /// Write access to the `transmit` field.
    pub fn transmit(self) -> (f: BitW<Port3Ctrl2>)
        ensures
            f.w == self,
            f.mask == 0x04,
    {
        BitW { w: self, mask: 0x04 }
    }

    /// Write access to the `receive` field.
    pub fn receive(self) -> (f: BitW<Port3Ctrl2>)
        ensures
            f.w == self,
            f.mask == 0x02,
    {
        BitW { w: self, mask: 0x02 }
    }

    /// Write access to the `learning_disable` field.
    pub fn learning_disable(self) -> (f: BitW<Port3Ctrl2>)
        ensures
            f.w == self,
            f.mask == 0x01,
    {
        BitW { w: self, mask: 0x01 }
    }
}

/// The `Port3Ctrl3` register, at address `0x33`.
#[derive(Clone, Copy, Debug, PartialEq, Eq, Structural, Hash)]
pub struct Port3Ctrl3 {
    bits: u8,
}

impl View for Port3Ctrl3 {
    type V = u8;

    closed spec fn view(&self) -> u8 {
        self.bits
    }
}

impl Register for Port3Ctrl3 {
    open spec fn spec_address() -> Address {
        Address::Port3Ctrl3
    }

    closed spec fn spec_from_bits(bits: u8) -> Port3Ctrl3 {
        Port3Ctrl3 { bits }
    }

    proof fn lemma_from_bits(bits: u8) {
    }

    fn address() -> (a: Address) {
        Address::Port3Ctrl3
    }

    fn from_bits(bits: u8) -> (r: Port3Ctrl3) {
        Port3Ctrl3 { bits }
    }

    fn to_bits(&self) -> (b: u8) {
        self.bits
    }
}

impl Default for Port3Ctrl3 {
    fn default() -> (r: Port3Ctrl3)
        ensures
            r@ == default_bits(Address::Port3Ctrl3),
    {
        Port3Ctrl3 { bits: 0x00 }
    }
}

impl From<u8> for Port3Ctrl3 {
    fn from(bits: u8) -> (r: Port3Ctrl3) {
        Port3Ctrl3 { bits }
    }
}

impl vstd::std_specs::convert::FromSpecImpl<u8> for Port3Ctrl3 {
    open spec fn obeys_from_spec() -> bool {
        true
    }

    open spec fn from_spec(bits: u8) -> Port3Ctrl3 {
        <Port3Ctrl3 as Register>::spec_from_bits(bits)
    }
}

impl From<Port3Ctrl3> for u8 {
    fn from(r: Port3Ctrl3) -> (bits: u8) {
        r.bits
    }
}

impl vstd::std_specs::convert::FromSpecImpl<Port3Ctrl3> for u8 {
    open spec fn obeys_from_spec() -> bool {
        true
    }

    open spec fn from_spec(r: Port3Ctrl3) -> u8 {
        r@
    }
}

impl From<Port3Ctrl3> for State {
    fn from(r: Port3Ctrl3) -> (s: State) {
        State::Port3Ctrl3(r)
    }
}

impl vstd::std_specs::convert::FromSpecImpl<Port3Ctrl3> for State {
    open spec fn obeys_from_spec() -> bool {
        true
    }

    open spec fn from_spec(r: Port3Ctrl3) -> State {
        State::Port3Ctrl3(r)
    }
}

impl core::convert::TryFrom<State> for Port3Ctrl3 {
    type Error = InvalidAddress;

    fn try_from(s: State) -> (r: Result<Port3Ctrl3, InvalidAddress>) {
        match s {
            State::Port3Ctrl3(r) => Ok(r),
            _ => Err(InvalidAddress),
        }
    }
}

impl vstd::std_specs::convert::TryFromSpecImpl<State> for Port3Ctrl3 {
    open spec fn obeys_try_from_spec() -> bool {
        true
    }

    open spec fn try_from_spec(s: State) -> Result<Port3Ctrl3, InvalidAddress> {
        match s {
            State::Port3Ctrl3(r) => Ok(r),
            _ => Err(InvalidAddress),
        }
    }
}

impl Port3Ctrl3 {
    /// Provides read access to the individual fields of the register.
    pub fn read(&self) -> (r: R<Port3Ctrl3>)
        ensures
            r.0 == *self,
    {
        R(*self)
    }

    /// Provides write access to the individual fields of the register.
    pub fn write(self) -> (w: W<Port3Ctrl3>)
        ensures
            w.0 == self,
    {
        W(self)
    }
}

impl R<Port3Ctrl3> {
    /// Read access to the `default_tag_15_8` field.
    pub fn default_tag_15_8(&self) -> (f: BitsR<u8>)
        ensures
            f.bits == load8(self.0@, 0xff, 0),
    {
        BitsR { bits: (self.0.bits & 0xff) >> 0u8 }
    }
}

impl W<Port3Ctrl3> {
    /// Write access to the `default_tag_15_8` field.
    pub fn default_tag_15_8(self) -> (f: BitsW<Port3Ctrl3>)
        ensures
            f.w == self,
            f.mask == 0xff,
            f.shift == 0,
    {
        BitsW { w: self, mask: 0xff, shift: 0 }
    }
}

/// The `Port3Ctrl4` register, at address `0x34`.
#[derive(Clone, Copy, Debug, PartialEq, Eq, Structural, Hash)]
pub struct Port3Ctrl4 {
    bits: u8,
}

impl View for Port3Ctrl4 {
    type V = u8;

    closed spec fn view(&self) -> u8 {
        self.bits
    }
}

impl Register for Port3Ctrl4 {
    open spec fn spec_address() -> Address {
        Address::Port3Ctrl4
    }

    closed spec fn spec_from_bits(bits: u8) -> Port3Ctrl4 {
        Port3Ctrl4 { bits }
    }

    proof fn lemma_from_bits(bits: u8) {
    }

    fn address() -> (a: Address) {
        Address::Port3Ctrl4
    }

    fn from_bits(bits: u8) -> (r: Port3Ctrl4) {
        Port3Ctrl4 { bits }
    }

    fn to_bits(&self) -> (b: u8) {
        self.bits
    }
}

impl Default for Port3Ctrl4 {
    fn default() -> (r: Port3Ctrl4)
        ensures
            r@ == default_bits(Address::Port3Ctrl4),
    {
        Port3Ctrl4 { bits: 0x01 }
    }
}

impl From<u8> for Port3Ctrl4 {
    fn from(bits: u8) -> (r: Port3Ctrl4) {
        Port3Ctrl4 { bits }
    }
}

impl vstd::std_specs::convert::FromSpecImpl<u8> for Port3Ctrl4 {
    open spec fn obeys_from_spec() -> bool {
        true
    }

    open spec fn from_spec(bits: u8) -> Port3Ctrl4 {
        <Port3Ctrl4 as Register>::spec_from_bits(bits)
    }
}

impl From<Port3Ctrl4> for u8 {
    fn from(r: Port3Ctrl4) -> (bits: u8) {
        r.bits
    }
}

impl vstd::std_specs::convert::FromSpecImpl<Port3Ctrl4> for u8 {
    open spec fn obeys_from_spec() -> bool {
        true
    }

    open spec fn from_spec(r: Port3Ctrl4) -> u8 {
        r@
    }
}

impl From<Port3Ctrl4> for State {
    fn from(r: Port3Ctrl4) -> (s: State) {
        State::Port3Ctrl4(r)
    }
}

impl vstd::std_specs::convert::FromSpecImpl<Port3Ctrl4> for State {
    open spec fn obeys_from_spec() -> bool {
        true
    }

    open spec fn from_spec(r: Port3Ctrl4) -> State {
        State::Port3Ctrl4(r)
    }
}

impl core::convert::TryFrom<State> for Port3Ctrl4 {
    type Error = InvalidAddress;

    fn try_from(s: State) -> (r: Result<Port3Ctrl4, InvalidAddress>) {
        match s {
            State::Port3Ctrl4(r) => Ok(r),
            _ => Err(InvalidAddress),
        }
    }
}

impl vstd::std_specs::convert::TryFromSpecImpl<State> for Port3Ctrl4 {
    open spec fn obeys_try_from_spec() -> bool {
        true
    }

    open spec fn try_from_spec(s: State) -> Result<Port3Ctrl4, InvalidAddress> {
        match s {
            State::Port3Ctrl4(r) => Ok(r),
            _ => Err(InvalidAddress),
        }
    }
}

impl Port3Ctrl4 {
    /// Provides read access to the individual fields of the register.
    pub fn read(&self) -> (r: R<Port3Ctrl4>)
        ensures
            r.0 == *self,
    {
        R(*self)
    }

    /// Provides write access to the individual fields of the register.
    pub fn write(self) -> (w: W<Port3Ctrl4>)
        ensures
            w.0 == self,
    {
        W(self)
    }
}

impl R<Port3Ctrl4> {
    /// Read access to the `default_tag_7_0` field.
    pub fn default_tag_7_0(&self) -> (f: BitsR<u8>)
        ensures
            f.bits == load8(self.0@, 0xff, 0),
    {
        BitsR { bits: (self.0.bits & 0xff) >> 0u8 }
    }
}

impl W<Port3Ctrl4> {
    /// Write access to the `default_tag_7_0` field.
    pub fn default_tag_7_0(self) -> (f: BitsW<Port3Ctrl4>)
        ensures
            f.w == self,
            f.mask == 0xff,
            f.shift == 0,
    {
        BitsW { w: self, mask: 0xff, shift: 0 }
    }
}

/// The `Port3Ctrl5` register, at address `0x35`.
#[derive(Clone, Copy, Debug, PartialEq, Eq, Structural, Hash)]
pub struct Port3Ctrl5 {
    bits: u8,
}

impl View for Port3Ctrl5 {
    type V = u8;

    closed spec fn view(&self) -> u8 {
        self.bits
    }
}

impl Register for Port3Ctrl5 {
    open spec fn spec_address() -> Address {
        Address::Port3Ctrl5
    }

    closed spec fn spec_from_bits(bits: u8) -> Port3Ctrl5 {
        Port3Ctrl5 { bits }
    }

    proof fn lemma_from_bits(bits: u8) {
    }

    fn address() -> (a: Address) {
        Address::Port3Ctrl5
    }

    fn from_bits(bits: u8) -> (r: Port3Ctrl5) {
        Port3Ctrl5 { bits }
    }

    fn to_bits(&self) -> (b: u8) {
        self.bits
    }
}

impl Default for Port3Ctrl5 {
    fn default() -> (r: Port3Ctrl5)
        ensures
            r@ == default_bits(Address::Port3Ctrl5),
    {
        Port3Ctrl5 { bits: 0x00 }
    }
}

impl From<u8> for Port3Ctrl5 {
    fn from(bits: u8) -> (r: Port3Ctrl5) {
        Port3Ctrl5 { bits }
    }
}

impl vstd::std_specs::convert::FromSpecImpl<u8> for Port3Ctrl5 {
    open spec fn obeys_from_spec() -> bool {
        true
    }

    open spec fn from_spec(bits: u8) -> Port3Ctrl5 {
        <Port3Ctrl5 as Register>::spec_from_bits(bits)
    }
}

impl From<Port3Ctrl5> for u8 {
    fn from(r: Port3Ctrl5) -> (bits: u8) {
        r.bits
    }
}

impl vstd::std_specs::convert::FromSpecImpl<Port3Ctrl5> for u8 {
    open spec fn obeys_from_spec() -> bool {
        true
    }

    open spec fn from_spec(r: Port3Ctrl5) -> u8 {
        r@
    }
}

impl From<Port3Ctrl5> for State {
    fn from(r: Port3Ctrl5) -> (s: State) {
        State::Port3Ctrl5(r)
    }
}

impl vstd::std_specs::convert::FromSpecImpl<Port3Ctrl5> for State {
    open spec fn obeys_from_spec() -> bool {
        true
    }

    open spec fn from_spec(r: Port3Ctrl5) -> State {
        State::Port3Ctrl5(r)
    }
}

impl core::convert::TryFrom<State> for Port3Ctrl5 {
    type Error = InvalidAddress;

    fn try_from(s: State) -> (r: Result<Port3Ctrl5, InvalidAddress>) {
        match s {
            State::Port3Ctrl5(r) => Ok(r),
            _ => Err(InvalidAddress),
        }
    }
}

impl vstd::std_specs::convert::TryFromSpecImpl<State> for Port3Ctrl5 {
    open spec fn obeys_try_from_spec() -> bool {
        true
    }

    open spec fn try_from_spec(s: State) -> Result<Port3Ctrl5, InvalidAddress> {
        match s {
            State::Port3Ctrl5(r) => Ok(r),
            _ => Err(InvalidAddress),
        }
    }
}

impl Port3Ctrl5 {
    /// Provides read access to the individual fields of the register.
    pub fn read(&self) -> (r: R<Port3Ctrl5>)
        ensures
            r.0 == *self,
    {
        R(*self)
    }

    /// Provides write access to the individual fields of the register.
    pub fn write(self) -> (w: W<Port3Ctrl5>)
        ensures
            w.0 == self,
    {
        W(self)
    }
}

impl R<Port3Ctrl5> {
    /// Read access to the `port3_mii_mode_selection` field.
    pub fn port3_mii_mode_selection(&self) -> (f: BitR)
        ensures
            f.bit == (self.0@ & 0x80 != 0),
    {
        BitR { bit: self.0.bits & 0x80 != 0 }
    }

    /// Read access to the `self_addr_filtering_enable_maca1` field.
    pub fn self_addr_filtering_enable_maca1(&self) -> (f: BitR)
        ensures
            f.bit == (self.0@ & 0x40 != 0),
    {
        BitR { bit: self.0.bits & 0x40 != 0 }
    }

    /// Read access to the `self_addr_filtering_enable_maca2` field.
    pub fn self_addr_filtering_enable_maca2(&self) -> (f: BitR)
        ensures
            f.bit == (self.0@ & 0x20 != 0),
    {
        BitR { bit: self.0.bits & 0x20 != 0 }
    }

    /// Read access to the `dropped_ingress_tagged_frame` field.
    pub fn dropped_ingress_tagged_frame(&self) -> (f: BitR)
        ensures
            f.bit == (self.0@ & 0x10 != 0),
    {
        BitR { bit: self.0.bits & 0x10 != 0 }
    }

    /// Read access to the `limit_mode` field.
    pub fn limit_mode(&self) -> (f: BitsR<u8>)
        ensures
            f.bits == load8(self.0@, 0x0c, 2),
    {
        BitsR { bits: (self.0.bits & 0x0c) >> 2u8 }
    }

    /// Read access to the `count_ifg` field.
    pub fn count_ifg(&self) -> (f: BitR)
        ensures
            f.bit == (self.0@ & 0x02 != 0),
    {
        BitR { bit: self.0.bits & 0x02 != 0 }
    }

    /// Read access to the `count_pre` field.
    pub fn count_pre(&self) -> (f: BitR)
        ensures
            f.bit == (self.0@ & 0x01 != 0),
    {
        BitR { bit: self.0.bits & 0x01 != 0 }
    }
}

impl W<Port3Ctrl5> {
    /// Write access to the `port3_mii_mode_selection` field.
    pub fn port3_mii_mode_selection(self) -> (f: BitW<Port3Ctrl5>)
        ensures
            f.w == self,
            f.mask == 0x80,
    {
        BitW { w: self, mask: 0x80 }
    }

    /// Write access to the `self_addr_filtering_enable_maca1` field.
    pub fn self_addr_filtering_enable_maca1(self) -> (f: BitW<Port3Ctrl5>)
        ensures
            f.w == self,
            f.mask == 0x40,
    {
        BitW { w: self, mask: 0x40 }
    }

    /// Write access to the `self_addr_filtering_enable_maca2` field.
    pub fn self_addr_filtering_enable_maca2(self) -> (f: BitW<Port3Ctrl5>)
        ensures
            f.w == self,
            f.mask == 0x20,
    {
        BitW { w: self, mask: 0x20 }
    }

    /// Write access to the `dropped_ingress_tagged_frame` field.
    pub fn dropped_ingress_tagged_frame(self) -> (f: BitW<Port3Ctrl5>)
        ensures
            f.w == self,
            f.mask == 0x10,
    {
        BitW { w: self, mask: 0x10 }
    }

    /// Write access to the `limit_mode` field.
    pub fn limit_mode(self) -> (f: BitsW<Port3Ctrl5>)
        ensures
            f.w == self,
            f.mask == 0x0c,
            f.shift == 2,
    {
        BitsW { w: self, mask: 0x0c, shift: 2 }
    }

    /// Write access to the `count_ifg` field.
    pub fn count_ifg(self) -> (f: BitW<Port3Ctrl5>)
        ensures
            f.w == self,
            f.mask == 0x02,
    {
        BitW { w: self, mask: 0x02 }
    }

    /// Write access to the `count_pre` field.
    pub fn count_pre(self) -> (f: BitW<Port3Ctrl5>)
        ensures
            f.w == self,
            f.mask == 0x01,
    {
        BitW { w: self, mask: 0x01 }
    }
}

/// The `Port3Q0IngressRateLimit` register, at address `0x36`.
#[derive(Clone, Copy, Debug, PartialEq, Eq, Structural, Hash)]
pub struct Port3Q0IngressRateLimit {
    bits: u8,
}

impl View for Port3Q0IngressRateLimit {
    type V = u8;

    closed spec fn view(&self) -> u8 {
        self.bits
    }
}

impl Register for Port3Q0IngressRateLimit {
    open spec fn spec_address() -> Address {
        Address::Port3Q0IngressRateLimit
    }

    closed spec fn spec_from_bits(bits: u8) -> Port3Q0IngressRateLimit {
        Port3Q0IngressRateLimit { bits }
    }

    proof fn lemma_from_bits(bits: u8) {
    }

    fn address() -> (a: Address) {
        Address::Port3Q0IngressRateLimit
    }

    fn from_bits(bits: u8) -> (r: Port3Q0IngressRateLimit) {
        Port3Q0IngressRateLimit { bits }
    }

    fn to_bits(&self) -> (b: u8) {
        self.bits
    }
}

impl Default for Port3Q0IngressRateLimit {
    fn default() -> (r: Port3Q0IngressRateLimit)
        ensures
            r@ == default_bits(Address::Port3Q0IngressRateLimit),
    {
        Port3Q0IngressRateLimit { bits: 0x00 }
    }
}

impl From<u8> for Port3Q0IngressRateLimit {
    fn from(bits: u8) -> (r: Port3Q0IngressRateLimit) {
        Port3Q0IngressRateLimit { bits }
    }
}

impl vstd::std_specs::convert::FromSpecImpl<u8> for Port3Q0IngressRateLimit {
    open spec fn obeys_from_spec() -> bool {
        true
    }

    open spec fn from_spec(bits: u8) -> Port3Q0IngressRateLimit {
        <Port3Q0IngressRateLimit as Register>::spec_from_bits(bits)
    }
}

impl From<Port3Q0IngressRateLimit> for u8 {
    fn from(r: Port3Q0IngressRateLimit) -> (bits: u8) {
        r.bits
    }
}

impl vstd::std_specs::convert::FromSpecImpl<Port3Q0IngressRateLimit> for u8 {
    open spec fn obeys_from_spec() -> bool {
        true
    }

    open spec fn from_spec(r: Port3Q0IngressRateLimit) -> u8 {
        r@
    }
}

impl From<Port3Q0IngressRateLimit> for State {
    fn from(r: Port3Q0IngressRateLimit) -> (s: State) {
        State::Port3Q0IngressRateLimit(r)
    }
}

impl vstd::std_specs::convert::FromSpecImpl<Port3Q0IngressRateLimit> for State {
    open spec fn obeys_from_spec() -> bool {
        true
    }

    open spec fn from_spec(r: Port3Q0IngressRateLimit) -> State {
        State::Port3Q0IngressRateLimit(r)
    }
}

impl core::convert::TryFrom<State> for Port3Q0IngressRateLimit {
    type Error = InvalidAddress;

    fn try_from(s: State) -> (r: Result<Port3Q0IngressRateLimit, InvalidAddress>) {
        match s {
            State::Port3Q0IngressRateLimit(r) => Ok(r),
            _ => Err(InvalidAddress),
        }
    }
}

impl vstd::std_specs::convert::TryFromSpecImpl<State> for Port3Q0IngressRateLimit {
    open spec fn obeys_try_from_spec() -> bool {
        true
    }

    open spec fn try_from_spec(s: State) -> Result<Port3Q0IngressRateLimit, InvalidAddress> {
        match s {
            State::Port3Q0IngressRateLimit(r) => Ok(r),
            _ => Err(InvalidAddress),
        }
    }
}

impl Port3Q0IngressRateLimit {
    /// Provides read access to the individual fields of the register.
    pub fn read(&self) -> (r: R<Port3Q0IngressRateLimit>)
        ensures
            r.0 == *self,
    {
        R(*self)
    }

    /// Provides write access to the individual fields of the register.
    pub fn write(self) -> (w: W<Port3Q0IngressRateLimit>)
        ensures
            w.0 == self,
    {
        W(self)
    }
}

impl R<Port3Q0IngressRateLimit> {
    /// Read access to the `rmii_refclk_invert` field.
    pub fn rmii_refclk_invert(&self) -> (f: BitR)
        ensures
            f.bit == (self.0@ & 0x80 != 0),
    {
        BitR { bit: self.0.bits & 0x80 != 0 }
    }

    /// Read access to the `limit` field.
    pub fn limit(&self) -> (f: BitsR<u8>)
        ensures
            f.bits == load8(self.0@, 0x7f, 0),
    {
        BitsR { bits: (self.0.bits & 0x7f) >> 0u8 }
    }
}

impl W<Port3Q0IngressRateLimit> {
    /// Write access to the `rmii_refclk_invert` field.
    pub fn rmii_refclk_invert(self) -> (f: BitW<Port3Q0IngressRateLimit>)
        ensures
            f.w == self,
            f.mask == 0x80,
    {
        BitW { w: self, mask: 0x80 }
    }

    /// Write access to the `limit` field.
    pub fn limit(self) -> (f: BitsW<Port3Q0IngressRateLimit>)
        ensures
            f.w == self,
            f.mask == 0x7f,
            f.shift == 0,
    {
        BitsW { w: self, mask: 0x7f, shift: 0 }
    }
}

/// The `Port3Q1IngressRateLimit` register, at address `0x37`.
#[derive(Clone, Copy, Debug, PartialEq, Eq, Structural, Hash)]
pub struct Port3Q1IngressRateLimit {
    bits: u8,
}

impl View for Port3Q1IngressRateLimit {
    type V = u8;

    closed spec fn view(&self) -> u8 {
        self.bits
    }
}

impl Register for Port3Q1IngressRateLimit {
    open spec fn spec_address() -> Address {
        Address::Port3Q1IngressRateLimit
    }

    closed spec fn spec_from_bits(bits: u8) -> Port3Q1IngressRateLimit {
        Port3Q1IngressRateLimit { bits }
    }

    proof fn lemma_from_bits(bits: u8) {
    }

    fn address() -> (a: Address) {
        Address::Port3Q1IngressRateLimit
    }

    fn from_bits(bits: u8) -> (r: Port3Q1IngressRateLimit) {
        Port3Q1IngressRateLimit { bits }
    }

    fn to_bits(&self) -> (b: u8) {
        self.bits
    }
}

impl Default for Port3Q1IngressRateLimit {
    fn default() -> (r: Port3Q1IngressRateLimit)
        ensures
            r@ == default_bits(Address::Port3Q1IngressRateLimit),
    {
        Port3Q1IngressRateLimit { bits: 0x00 }
    }
}

impl From<u8> for Port3Q1IngressRateLimit {
    fn from(bits: u8) -> (r: Port3Q1IngressRateLimit) {
        Port3Q1IngressRateLimit { bits }
    }
}

impl vstd::std_specs::convert::FromSpecImpl<u8> for Port3Q1IngressRateLimit {
    open spec fn obeys_from_spec() -> bool {
        true
    }

    open spec fn from_spec(bits: u8) -> Port3Q1IngressRateLimit {
        <Port3Q1IngressRateLimit as Register>::spec_from_bits(bits)
    }
}

impl From<Port3Q1IngressRateLimit> for u8 {
    fn from(r: Port3Q1IngressRateLimit) -> (bits: u8) {
        r.bits
    }
}

impl vstd::std_specs::convert::FromSpecImpl<Port3Q1IngressRateLimit> for u8 {
    open spec fn obeys_from_spec() -> bool {
        true
    }

    open spec fn from_spec(r: Port3Q1IngressRateLimit) -> u8 {
        r@
    }
}

impl From<Port3Q1IngressRateLimit> for State {
    fn from(r: Port3Q1IngressRateLimit) -> (s: State) {
        State::Port3Q1IngressRateLimit(r)
    }
}

impl vstd::std_specs::convert::FromSpecImpl<Port3Q1IngressRateLimit> for State {
    open spec fn obeys_from_spec() -> bool {
        true
    }

    open spec fn from_spec(r: Port3Q1IngressRateLimit) -> State {
        State::Port3Q1IngressRateLimit(r)
    }
}

impl core::convert::TryFrom<State> for Port3Q1IngressRateLimit {
    type Error = InvalidAddress;

    fn try_from(s: State) -> (r: Result<Port3Q1IngressRateLimit, InvalidAddress>) {
        match s {
            State::Port3Q1IngressRateLimit(r) => Ok(r),
            _ => Err(InvalidAddress),
        }
    }
}

impl vstd::std_specs::convert::TryFromSpecImpl<State> for Port3Q1IngressRateLimit {
    open spec fn obeys_try_from_spec() -> bool {
        true
    }

    open spec fn try_from_spec(s: State) -> Result<Port3Q1IngressRateLimit, InvalidAddress> {
        match s {
            State::Port3Q1IngressRateLimit(r) => Ok(r),
            _ => Err(InvalidAddress),
        }
    }
}

impl Port3Q1IngressRateLimit {
    /// Provides read access to the individual fields of the register.
    pub fn read(&self) -> (r: R<Port3Q1IngressRateLimit>)
        ensures
            r.0 == *self,
    {
        R(*self)
    }

    /// Provides write access to the individual fields of the register.
    pub fn write(self) -> (w: W<Port3Q1IngressRateLimit>)
        ensures
            w.0 == self,
    {
        W(self)
    }
}

impl R<Port3Q1IngressRateLimit> {
    /// Read access to the `limit` field.
    pub fn limit(&self) -> (f: BitsR<u8>)
        ensures
            f.bits == load8(self.0@, 0x7f, 0),
    {
        BitsR { bits: (self.0.bits & 0x7f) >> 0u8 }
    }
}

impl W<Port3Q1IngressRateLimit> {
    /// Write access to the `limit` field.
    pub fn limit(self) -> (f: BitsW<Port3Q1IngressRateLimit>)
        ensures
            f.w == self,
            f.mask == 0x7f,
            f.shift == 0,
    {
        BitsW { w: self, mask: 0x7f, shift: 0 }
    }
}

/// The `Port3Q2IngressRateLimit` register, at address `0x38`.
#[derive(Clone, Copy, Debug, PartialEq, Eq, Structural, Hash)]
pub struct Port3Q2IngressRateLimit {
    bits: u8,
}

impl View for Port3Q2IngressRateLimit {
    type V = u8;

    closed spec fn view(&self) -> u8 {
        self.bits
    }
}

impl Register for Port3Q2IngressRateLimit {
    open spec fn spec_address() -> Address {
        Address::Port3Q2IngressRateLimit
    }

    closed spec fn spec_from_bits(bits: u8) -> Port3Q2IngressRateLimit {
        Port3Q2IngressRateLimit { bits }
    }

    proof fn lemma_from_bits(bits: u8) {
    }

    fn address() -> (a: Address) {
        Address::Port3Q2IngressRateLimit
    }

    fn from_bits(bits: u8) -> (r: Port3Q2IngressRateLimit) {
        Port3Q2IngressRateLimit { bits }
    }

    fn to_bits(&self) -> (b: u8) {
        self.bits
    }
}

impl Default for Port3Q2IngressRateLimit {
    fn default() -> (r: Port3Q2IngressRateLimit)
        ensures
            r@ == default_bits(Address::Port3Q2IngressRateLimit),
    {
        Port3Q2IngressRateLimit { bits: 0x00 }
    }
}

impl From<u8> for Port3Q2IngressRateLimit {
    fn from(bits: u8) -> (r: Port3Q2IngressRateLimit) {
        Port3Q2IngressRateLimit { bits }
    }
}

impl vstd::std_specs::convert::FromSpecImpl<u8> for Port3Q2IngressRateLimit {
    open spec fn obeys_from_spec() -> bool {
        true
    }

    open spec fn from_spec(bits: u8) -> Port3Q2IngressRateLimit {
        <Port3Q2IngressRateLimit as Register>::spec_from_bits(bits)
    }
}

impl From<Port3Q2IngressRateLimit> for u8 {
    fn from(r: Port3Q2IngressRateLimit) -> (bits: u8) {
        r.bits
    }
}

impl vstd::std_specs::convert::FromSpecImpl<Port3Q2IngressRateLimit> for u8 {
    open spec fn obeys_from_spec() -> bool {
        true
    }

    open spec fn from_spec(r: Port3Q2IngressRateLimit) -> u8 {
        r@
    }
}

impl From<Port3Q2IngressRateLimit> for State {
    fn from(r: Port3Q2IngressRateLimit) -> (s: State) {
        State::Port3Q2IngressRateLimit(r)
    }
}

impl vstd::std_specs::convert::FromSpecImpl<Port3Q2IngressRateLimit> for State {
    open spec fn obeys_from_spec() -> bool {
        true
    }

    open spec fn from_spec(r: Port3Q2IngressRateLimit) -> State {
        State::Port3Q2IngressRateLimit(r)
    }
}

impl core::convert::TryFrom<State> for Port3Q2IngressRateLimit {
    type Error = InvalidAddress;

    fn try_from(s: State) -> (r: Result<Port3Q2IngressRateLimit, InvalidAddress>) {
        match s {
            State::Port3Q2IngressRateLimit(r) => Ok(r),
            _ => Err(InvalidAddress),
        }
    }
}

impl vstd::std_specs::convert::TryFromSpecImpl<State> for Port3Q2IngressRateLimit {
    open spec fn obeys_try_from_spec() -> bool {
        true
    }

    open spec fn try_from_spec(s: State) -> Result<Port3Q2IngressRateLimit, InvalidAddress> {
        match s {
            State::Port3Q2IngressRateLimit(r) => Ok(r),
            _ => Err(InvalidAddress),
        }
    }
}

impl Port3Q2IngressRateLimit {
    /// Provides read access to the individual fields of the register.
    pub fn read(&self) -> (r: R<Port3Q2IngressRateLimit>)
        ensures
            r.0 == *self,
    {
        R(*self)
    }

    /// Provides write access to the individual fields of the register.
    pub fn write(self) -> (w: W<Port3Q2IngressRateLimit>)
        ensures
            w.0 == self,
    {
        W(self)
    }
}

impl R<Port3Q2IngressRateLimit> {
    /// Read access to the `limit` field.
    pub fn limit(&self) -> (f: BitsR<u8>)
        ensures
            f.bits == load8(self.0@, 0x7f, 0),
    {
        BitsR { bits: (self.0.bits & 0x7f) >> 0u8 }
    }
}

impl W<Port3Q2IngressRateLimit> {
    /// Write access to the `limit` field.
    pub fn limit(self) -> (f: BitsW<Port3Q2IngressRateLimit>)
        ensures
            f.w == self,
            f.mask == 0x7f,
            f.shift == 0,
    {
        BitsW { w: self, mask: 0x7f, shift: 0 }
    }
}

/// The `Port3Q3IngressRateLimit` register, at address `0x39`.
#[derive(Clone, Copy, Debug, PartialEq, Eq, Structural, Hash)]
pub struct Port3Q3IngressRateLimit {
    bits: u8,
}

impl View for Port3Q3IngressRateLimit {
    type V = u8;

    closed spec fn view(&self) -> u8 {
        self.bits
    }
}

impl Register for Port3Q3IngressRateLimit {
    open spec fn spec_address() -> Address {
        Address::Port3Q3IngressRateLimit
    }

    closed spec fn spec_from_bits(bits: u8) -> Port3Q3IngressRateLimit {
        Port3Q3IngressRateLimit { bits }
    }

    proof fn lemma_from_bits(bits: u8) {
    }

    fn address() -> (a: Address) {
        Address::Port3Q3IngressRateLimit
    }

    fn from_bits(bits: u8) -> (r: Port3Q3IngressRateLimit) {
        Port3Q3IngressRateLimit { bits }
    }

    fn to_bits(&self) -> (b: u8) {
        self.bits
    }
}

impl Default for Port3Q3IngressRateLimit {
    fn default() -> (r: Port3Q3IngressRateLimit)
        ensures
            r@ == default_bits(Address::Port3Q3IngressRateLimit),
    {
        Port3Q3IngressRateLimit { bits: 0x00 }
    }
}

impl From<u8> for Port3Q3IngressRateLimit {
    fn from(bits: u8) -> (r: Port3Q3IngressRateLimit) {
        Port3Q3IngressRateLimit { bits }
    }
}

impl vstd::std_specs::convert::FromSpecImpl<u8> for Port3Q3IngressRateLimit {
    open spec fn obeys_from_spec() -> bool {
        true
    }

    open spec fn from_spec(bits: u8) -> Port3Q3IngressRateLimit {
        <Port3Q3IngressRateLimit as Register>::spec_from_bits(bits)
    }
}

impl From<Port3Q3IngressRateLimit> for u8 {
    fn from(r: Port3Q3IngressRateLimit) -> (bits: u8) {
        r.bits
    }
}

impl vstd::std_specs::convert::FromSpecImpl<Port3Q3IngressRateLimit> for u8 {
    open spec fn obeys_from_spec() -> bool {
        true
    }

    open spec fn from_spec(r: Port3Q3IngressRateLimit) -> u8 {
        r@
    }
}

impl From<Port3Q3IngressRateLimit> for State {
    fn from(r: Port3Q3IngressRateLimit) -> (s: State) {
        State::Port3Q3IngressRateLimit(r)
    }
}

impl vstd::std_specs::convert::FromSpecImpl<Port3Q3IngressRateLimit> for State {
    open spec fn obeys_from_spec() -> bool {
        true
    }

    open spec fn from_spec(r: Port3Q3IngressRateLimit) -> State {
        State::Port3Q3IngressRateLimit(r)
    }
}

impl core::convert::TryFrom<State> for Port3Q3IngressRateLimit {
    type Error = InvalidAddress;

    fn try_from(s: State) -> (r: Result<Port3Q3IngressRateLimit, InvalidAddress>) {
        match s {
            State::Port3Q3IngressRateLimit(r) => Ok(r),
            _ => Err(InvalidAddress),
        }
    }
}

impl vstd::std_specs::convert::TryFromSpecImpl<State> for Port3Q3IngressRateLimit {
    open spec fn obeys_try_from_spec() -> bool {
        true
    }

    open spec fn try_from_spec(s: State) -> Result<Port3Q3IngressRateLimit, InvalidAddress> {
        match s {
            State::Port3Q3IngressRateLimit(r) => Ok(r),
            _ => Err(InvalidAddress),
        }
    }
}

impl Port3Q3IngressRateLimit {
    /// Provides read access to the individual fields of the register.
    pub fn read(&self) -> (r: R<Port3Q3IngressRateLimit>)
        ensures
            r.0 == *self,
    {
        R(*self)
    }

    /// Provides write access to the individual fields of the register.
    pub fn write(self) -> (w: W<Port3Q3IngressRateLimit>)
        ensures
            w.0 == self,
    {
        W(self)
    }
}

impl R<Port3Q3IngressRateLimit> {
    /// Read access to the `limit` field.
    pub fn limit(&self) -> (f: BitsR<u8>)
        ensures
            f.bits == load8(self.0@, 0x7f, 0),
    {
        BitsR { bits: (self.0.bits & 0x7f) >> 0u8 }
    }
}

impl W<Port3Q3IngressRateLimit> {
    /// Write access to the `limit` field.
    pub fn limit(self) -> (f: BitsW<Port3Q3IngressRateLimit>)
        ensures
            f.w == self,
            f.mask == 0x7f,
            f.shift == 0,
    {
        BitsW { w: self, mask: 0x7f, shift: 0 }
    }
}

/// The `Port3Status1` register, at address `0x3f`.
#[derive(Clone, Copy, Debug, PartialEq, Eq, Structural, Hash)]
pub struct Port3Status1 {
    bits: u8,
}

impl View for Port3Status1 {
    type V = u8;

    closed spec fn view(&self) -> u8 {
        self.bits
    }
}

impl Register for Port3Status1 {
    open spec fn spec_address() -> Address {
        Address::Port3Status1
    }

    closed spec fn spec_from_bits(bits: u8) -> Port3Status1 {
        Port3Status1 { bits }
    }

    proof fn lemma_from_bits(bits: u8) {
    }

    fn address() -> (a: Address) {
        Address::Port3Status1
    }

    fn from_bits(bits: u8) -> (r: Port3Status1) {
        Port3Status1 { bits }
    }

    fn to_bits(&self) -> (b: u8) {
        self.bits
    }
}

impl Default for Port3Status1 {
    fn default() -> (r: Port3Status1)
        ensures
            r@ == default_bits(Address::Port3Status1),
    {
        Port3Status1 { bits: 0x00 }
    }
}

impl From<u8> for Port3Status1 {
    fn from(bits: u8) -> (r: Port3Status1) {
        Port3Status1 { bits }
    }
}

impl vstd::std_specs::convert::FromSpecImpl<u8> for Port3Status1 {
    open spec fn obeys_from_spec() -> bool {
        true
    }

    open spec fn from_spec(bits: u8) -> Port3Status1 {
        <Port3Status1 as Register>::spec_from_bits(bits)
    }
}

impl From<Port3Status1> for u8 {
    fn from(r: Port3Status1) -> (bits: u8) {
        r.bits
    }
}

impl vstd::std_specs::convert::FromSpecImpl<Port3Status1> for u8 {
    open spec fn obeys_from_spec() -> bool {
        true
    }

    open spec fn from_spec(r: Port3Status1) -> u8 {
        r@
    }
}

impl From<Port3Status1> for State {
    fn from(r: Port3Status1) -> (s: State) {
        State::Port3Status1(r)
    }
}

impl vstd::std_specs::convert::FromSpecImpl<Port3Status1> for State {
    open spec fn obeys_from_spec() -> bool {
        true
    }

    open spec fn from_spec(r: Port3Status1) -> State {
        State::Port3Status1(r)
    }
}

impl core::convert::TryFrom<State> for Port3Status1 {
    type Error = InvalidAddress;

    fn try_from(s: State) -> (r: Result<Port3Status1, InvalidAddress>) {
        match s {
            State::Port3Status1(r) => Ok(r),
            _ => Err(InvalidAddress),
        }
    }
}

impl vstd::std_specs::convert::TryFromSpecImpl<State> for Port3Status1 {
    open spec fn obeys_try_from_spec() -> bool {
        true
    }

    open spec fn try_from_spec(s: State) -> Result<Port3Status1, InvalidAddress> {
        match s {
            State::Port3Status1(r) => Ok(r),
            _ => Err(InvalidAddress),
        }
    }
}

impl Port3Status1 {
    /// Provides read access to the individual fields of the register.
    pub fn read(&self) -> (r: R<Port3Status1>)
        ensures
            r.0 == *self,
    {
        R(*self)
    }

    /// Provides write access to the individual fields of the register.
    pub fn write(self) -> (w: W<Port3Status1>)
        ensures
            w.0 == self,
    {
        W(self)
    }
}

impl R<Port3Status1> {
    /// Read access to the `tx_flow_ctrl` field.
    pub fn tx_flow_ctrl(&self) -> (f: BitR)
        ensures
            f.bit == (self.0@ & 0x10 != 0),
    {
        BitR { bit: self.0.bits & 0x10 != 0 }
    }

    /// Read access to the `rx_flow_ctrl` field.
    pub fn rx_flow_ctrl(&self) -> (f: BitR)
        ensures
            f.bit == (self.0@ & 0x08 != 0),
    {
        BitR { bit: self.0.bits & 0x08 != 0 }
    }

    /// Read access to the `operation_speed` field.
    pub fn operation_speed(&self) -> (f: BitR)
        ensures
            f.bit == (self.0@ & 0x04 != 0),
    {
        BitR { bit: self.0.bits & 0x04 != 0 }
    }

    /// Read access to the `operation_duplex` field.
    pub fn operation_duplex(&self) -> (f: BitR)
        ensures
            f.bit == (self.0@ & 0x02 != 0),
    {
        BitR { bit: self.0.bits & 0x02 != 0 }
    }
}

/// The `Reset` register, at address `0x43`.
#[derive(Clone, Copy, Debug, PartialEq, Eq, Structural, Hash)]
pub struct Reset {
    bits: u8,
}

impl View for Reset {
    type V = u8;

    closed spec fn view(&self) -> u8 {
        self.bits
    }
}

impl Register for Reset {
    open spec fn spec_address() -> Address {
        Address::Reset
    }

    closed spec fn spec_from_bits(bits: u8) -> Reset {
        Reset { bits }
    }

    proof fn lemma_from_bits(bits: u8) {
    }

    fn address() -> (a: Address) {
        Address::Reset
    }

    fn from_bits(bits: u8) -> (r: Reset) {
        Reset { bits }
    }

    fn to_bits(&self) -> (b: u8) {
        self.bits
    }
}

impl Default for Reset {
    fn default() -> (r: Reset)
        ensures
            r@ == default_bits(Address::Reset),
    {
        Reset { bits: 0x00 }
    }
}

impl From<u8> for Reset {
    fn from(bits: u8) -> (r: Reset) {
        Reset { bits }
    }
}

impl vstd::std_specs::convert::FromSpecImpl<u8> for Reset {
    open spec fn obeys_from_spec() -> bool {
        true
    }

    open spec fn from_spec(bits: u8) -> Reset {
        <Reset as Register>::spec_from_bits(bits)
    }
}

impl From<Reset> for u8 {
    fn from(r: Reset) -> (bits: u8) {
        r.bits
    }
}

impl vstd::std_specs::convert::FromSpecImpl<Reset> for u8 {
    open spec fn obeys_from_spec() -> bool {
        true
    }

    open spec fn from_spec(r: Reset) -> u8 {
        r@
    }
}

impl From<Reset> for State {
    fn from(r: Reset) -> (s: State) {
        State::Reset(r)
    }
}

impl vstd::std_specs::convert::FromSpecImpl<Reset> for State {
    open spec fn obeys_from_spec() -> bool {
        true
    }

    open spec fn from_spec(r: Reset) -> State {
        State::Reset(r)
    }
}

impl core::convert::TryFrom<State> for Reset {
    type Error = InvalidAddress;

    fn try_from(s: State) -> (r: Result<Reset, InvalidAddress>) {
        match s {
            State::Reset(r) => Ok(r),
            _ => Err(InvalidAddress),
        }
    }
}

impl vstd::std_specs::convert::TryFromSpecImpl<State> for Reset {
    open spec fn obeys_try_from_spec() -> bool {
        true
    }

    open spec fn try_from_spec(s: State) -> Result<Reset, InvalidAddress> {
        match s {
            State::Reset(r) => Ok(r),
            _ => Err(InvalidAddress),
        }
    }
}

impl Reset {
    /// Provides read access to the individual fields of the register.
    pub fn read(&self) -> (r: R<Reset>)
        ensures
            r.0 == *self,
    {
        R(*self)
    }

    /// Provides write access to the individual fields of the register.
    pub fn write(self) -> (w: W<Reset>)
        ensures
            w.0 == self,
    {
        W(self)
    }
}

impl R<Reset> {
    /// Read access to the `software` field.
    pub fn software(&self) -> (f: BitR)
        ensures
            f.bit == (self.0@ & 0x10 != 0),
    {
        BitR { bit: self.0.bits & 0x10 != 0 }
    }

    /// Read access to the `pcs` field.
    pub fn pcs(&self) -> (f: BitR)
        ensures
            f.bit == (self.0@ & 0x01 != 0),
    {
        BitR { bit: self.0.bits & 0x01 != 0 }
    }
}

impl W<Reset> {
    /// Write access to the `software` field.
    pub fn software(self) -> (f: BitW<Reset>)
        ensures
            f.w == self,
            f.mask == 0x10,
    {
        BitW { w: self, mask: 0x10 }
    }

    /// Write access to the `pcs` field.
    pub fn pcs(self) -> (f: BitW<Reset>)
        ensures
            f.w == self,
            f.mask == 0x01,
    {
        BitW { w: self, mask: 0x01 }
    }
}

/// The `TosPriorityCtrl0` register, at address `0x60`.
#[derive(Clone, Copy, Debug, PartialEq, Eq, Structural, Hash)]
pub struct TosPriorityCtrl0 {
    bits: u8,
}

impl View for TosPriorityCtrl0 {
    type V = u8;

    closed spec fn view(&self) -> u8 {
        self.bits
    }
}

impl Register for TosPriorityCtrl0 {
    open spec fn spec_address() -> Address {
        Address::TosPriorityCtrl0
    }

    closed spec fn spec_from_bits(bits: u8) -> TosPriorityCtrl0 {
        TosPriorityCtrl0 { bits }
    }

    proof fn lemma_from_bits(bits: u8) {
    }

    fn address() -> (a: Address) {
        Address::TosPriorityCtrl0
    }

    fn from_bits(bits: u8) -> (r: TosPriorityCtrl0) {
        TosPriorityCtrl0 { bits }
    }

    fn to_bits(&self) -> (b: u8) {
        self.bits
    }
}

impl Default for TosPriorityCtrl0 {
    fn default() -> (r: TosPriorityCtrl0)
        ensures
            r@ == default_bits(Address::TosPriorityCtrl0),
    {
        TosPriorityCtrl0 { bits: 0x00 }
    }
}

impl From<u8> for TosPriorityCtrl0 {
    fn from(bits: u8) -> (r: TosPriorityCtrl0) {
        TosPriorityCtrl0 { bits }
    }
}

impl vstd::std_specs::convert::FromSpecImpl<u8> for TosPriorityCtrl0 {
    open spec fn obeys_from_spec() -> bool {
        true
    }

    open spec fn from_spec(bits: u8) -> TosPriorityCtrl0 {
        <TosPriorityCtrl0 as Register>::spec_from_bits(bits)
    }
}

impl From<TosPriorityCtrl0> for u8 {
    fn from(r: TosPriorityCtrl0) -> (bits: u8) {
        r.bits
    }
}

impl vstd::std_specs::convert::FromSpecImpl<TosPriorityCtrl0> for u8 {
    open spec fn obeys_from_spec() -> bool {
        true
    }

    open spec fn from_spec(r: TosPriorityCtrl0) -> u8 {
        r@
    }
}

impl From<TosPriorityCtrl0> for State {
    fn from(r: TosPriorityCtrl0) -> (s: State) {
        State::TosPriorityCtrl0(r)
    }
}

impl vstd::std_specs::convert::FromSpecImpl<TosPriorityCtrl0> for State {
    open spec fn obeys_from_spec() -> bool {
        true
    }

    open spec fn from_spec(r: TosPriorityCtrl0) -> State {
        State::TosPriorityCtrl0(r)
    }
}

impl core::convert::TryFrom<State> for TosPriorityCtrl0 {
    type Error = InvalidAddress;

    fn try_from(s: State) -> (r: Result<TosPriorityCtrl0, InvalidAddress>) {
        match s {
            State::TosPriorityCtrl0(r) => Ok(r),
            _ => Err(InvalidAddress),
        }
    }
}

impl vstd::std_specs::convert::TryFromSpecImpl<State> for TosPriorityCtrl0 {
    open spec fn obeys_try_from_spec() -> bool {
        true
    }

    open spec fn try_from_spec(s: State) -> Result<TosPriorityCtrl0, InvalidAddress> {
        match s {
            State::TosPriorityCtrl0(r) => Ok(r),
            _ => Err(InvalidAddress),
        }
    }
}

impl TosPriorityCtrl0 {
    /// Provides read access to the individual fields of the register.
    pub fn read(&self) -> (r: R<TosPriorityCtrl0>)
        ensures
            r.0 == *self,
    {
        R(*self)
    }

    /// Provides write access to the individual fields of the register.
    pub fn write(self) -> (w: W<TosPriorityCtrl0>)
        ensures
            w.0 == self,
    {
        W(self)
    }
}

impl R<TosPriorityCtrl0> {
    /// Read access to the `dscp0_7` field.
    pub fn dscp0_7(&self) -> (f: BitsR<u8>)
        ensures
            f.bits == load8(self.0@, 0xff, 0),
    {
        BitsR { bits: (self.0.bits & 0xff) >> 0u8 }
    }
}

impl W<TosPriorityCtrl0> {
    /// Write access to the `dscp0_7` field.
    pub fn dscp0_7(self) -> (f: BitsW<TosPriorityCtrl0>)
        ensures
            f.w == self,
            f.mask == 0xff,
            f.shift == 0,
    {
        BitsW { w: self, mask: 0xff, shift: 0 }
    }
}

/// The `TosPriorityCtrl1` register, at address `0x61`.
#[derive(Clone, Copy, Debug, PartialEq, Eq, Structural, Hash)]
pub struct TosPriorityCtrl1 {
    bits: u8,
}

impl View for TosPriorityCtrl1 {
    type V = u8;

    closed spec fn view(&self) -> u8 {
        self.bits
    }
}

impl Register for TosPriorityCtrl1 {
    open spec fn spec_address() -> Address {
        Address::TosPriorityCtrl1
    }

    closed spec fn spec_from_bits(bits: u8) -> TosPriorityCtrl1 {
        TosPriorityCtrl1 { bits }
    }

    proof fn lemma_from_bits(bits: u8) {
    }

    fn address() -> (a: Address) {
        Address::TosPriorityCtrl1
    }

    fn from_bits(bits: u8) -> (r: TosPriorityCtrl1) {
        TosPriorityCtrl1 { bits }
    }

    fn to_bits(&self) -> (b: u8) {
        self.bits
    }
}

impl Default for TosPriorityCtrl1 {
    fn default() -> (r: TosPriorityCtrl1)
        ensures
            r@ == default_bits(Address::TosPriorityCtrl1),
    {
        TosPriorityCtrl1 { bits: 0x00 }
    }
}

impl From<u8> for TosPriorityCtrl1 {
    fn from(bits: u8) -> (r: TosPriorityCtrl1) {
        TosPriorityCtrl1 { bits }
    }
}

impl vstd::std_specs::convert::FromSpecImpl<u8> for TosPriorityCtrl1 {
    open spec fn obeys_from_spec() -> bool {
        true
    }

    open spec fn from_spec(bits: u8) -> TosPriorityCtrl1 {
        <TosPriorityCtrl1 as Register>::spec_from_bits(bits)
    }
}

impl From<TosPriorityCtrl1> for u8 {
    fn from(r: TosPriorityCtrl1) -> (bits: u8) {
        r.bits
    }
}

impl vstd::std_specs::convert::FromSpecImpl<TosPriorityCtrl1> for u8 {
    open spec fn obeys_from_spec() -> bool {
        true
    }

    open spec fn from_spec(r: TosPriorityCtrl1) -> u8 {
        r@
    }
}

impl From<TosPriorityCtrl1> for State {
    fn from(r: TosPriorityCtrl1) -> (s: State) {
        State::TosPriorityCtrl1(r)
    }
}

impl vstd::std_specs::convert::FromSpecImpl<TosPriorityCtrl1> for State {
    open spec fn obeys_from_spec() -> bool {
        true
    }

    open spec fn from_spec(r: TosPriorityCtrl1) -> State {
        State::TosPriorityCtrl1(r)
    }
}

impl core::convert::TryFrom<State> for TosPriorityCtrl1 {
    type Error = InvalidAddress;

    fn try_from(s: State) -> (r: Result<TosPriorityCtrl1, InvalidAddress>) {
        match s {
            State::TosPriorityCtrl1(r) => Ok(r),
            _ => Err(InvalidAddress),
        }
    }
}

impl vstd::std_specs::convert::TryFromSpecImpl<State> for TosPriorityCtrl1 {
    open spec fn obeys_try_from_spec() -> bool {
        true
    }

    open spec fn try_from_spec(s: State) -> Result<TosPriorityCtrl1, InvalidAddress> {
        match s {
            State::TosPriorityCtrl1(r) => Ok(r),
            _ => Err(InvalidAddress),
        }
    }
}

impl TosPriorityCtrl1 {
    /// Provides read access to the individual fields of the register.
    pub fn read(&self) -> (r: R<TosPriorityCtrl1>)
        ensures
            r.0 == *self,
    {
        R(*self)
    }

    /// Provides write access to the individual fields of the register.
    pub fn write(self) -> (w: W<TosPriorityCtrl1>)
        ensures
            w.0 == self,
    {
        W(self)
    }
}

impl R<TosPriorityCtrl1> {
    /// Read access to the `dscp8_15` field.
    pub fn dscp8_15(&self) -> (f: BitsR<u8>)
        ensures
            f.bits == load8(self.0@, 0xff, 0),
    {
        BitsR { bits: (self.0.bits & 0xff) >> 0u8 }
    }
}

impl W<TosPriorityCtrl1> {
    /// Write access to the `dscp8_15` field.
    pub fn dscp8_15(self) -> (f: BitsW<TosPriorityCtrl1>)
        ensures
            f.w == self,
            f.mask == 0xff,
            f.shift == 0,
    {
        BitsW { w: self, mask: 0xff, shift: 0 }
    }
}

/// The `TosPriorityCtrl2` register, at address `0x62`.
#[derive(Clone, Copy, Debug, PartialEq, Eq, Structural, Hash)]
pub struct TosPriorityCtrl2 {
    bits: u8,
}

impl View for TosPriorityCtrl2 {
    type V = u8;

    closed spec fn view(&self) -> u8 {
        self.bits
    }
}

impl Register for TosPriorityCtrl2 {
    open spec fn spec_address() -> Address {
        Address::TosPriorityCtrl2
    }

    closed spec fn spec_from_bits(bits: u8) -> TosPriorityCtrl2 {
        TosPriorityCtrl2 { bits }
    }

    proof fn lemma_from_bits(bits: u8) {
    }

    fn address() -> (a: Address) {
        Address::TosPriorityCtrl2
    }

    fn from_bits(bits: u8) -> (r: TosPriorityCtrl2) {
        TosPriorityCtrl2 { bits }
    }

    fn to_bits(&self) -> (b: u8) {
        self.bits
    }
}

impl Default for TosPriorityCtrl2 {
    fn default() -> (r: TosPriorityCtrl2)
        ensures
            r@ == default_bits(Address::TosPriorityCtrl2),
    {
        TosPriorityCtrl2 { bits: 0x00 }
    }
}

impl From<u8> for TosPriorityCtrl2 {
    fn from(bits: u8) -> (r: TosPriorityCtrl2) {
        TosPriorityCtrl2 { bits }
    }
}

impl vstd::std_specs::convert::FromSpecImpl<u8> for TosPriorityCtrl2 {
    open spec fn obeys_from_spec() -> bool {
        true
    }

    open spec fn from_spec(bits: u8) -> TosPriorityCtrl2 {
        <TosPriorityCtrl2 as Register>::spec_from_bits(bits)
    }
}

impl From<TosPriorityCtrl2> for u8 {
    fn from(r: TosPriorityCtrl2) -> (bits: u8) {
        r.bits
    }
}

impl vstd::std_specs::convert::FromSpecImpl<TosPriorityCtrl2> for u8 {
    open spec fn obeys_from_spec() -> bool {
        true
    }

    open spec fn from_spec(r: TosPriorityCtrl2) -> u8 {
        r@
    }
}

impl From<TosPriorityCtrl2> for State {
    fn from(r: TosPriorityCtrl2) -> (s: State) {
        State::TosPriorityCtrl2(r)
    }
}

impl vstd::std_specs::convert::FromSpecImpl<TosPriorityCtrl2> for State {
    open spec fn obeys_from_spec() -> bool {
        true
    }

    open spec fn from_spec(r: TosPriorityCtrl2) -> State {
        State::TosPriorityCtrl2(r)
    }
}

impl core::convert::TryFrom<State> for TosPriorityCtrl2 {
    type Error = InvalidAddress;

    fn try_from(s: State) -> (r: Result<TosPriorityCtrl2, InvalidAddress>) {
        match s {
            State::TosPriorityCtrl2(r) => Ok(r),
            _ => Err(InvalidAddress),
        }
    }
}

impl vstd::std_specs::convert::TryFromSpecImpl<State> for TosPriorityCtrl2 {
    open spec fn obeys_try_from_spec() -> bool {
        true
    }

    open spec fn try_from_spec(s: State) -> Result<TosPriorityCtrl2, InvalidAddress> {
        match s {
            State::TosPriorityCtrl2(r) => Ok(r),
            _ => Err(InvalidAddress),
        }
    }
}

impl TosPriorityCtrl2 {
    /// Provides read access to the individual fields of the register.
    pub fn read(&self) -> (r: R<TosPriorityCtrl2>)
        ensures
            r.0 == *self,
    {
        R(*self)
    }

    /// Provides write access to the individual fields of the register.
    pub fn write(self) -> (w: W<TosPriorityCtrl2>)
        ensures
            w.0 == self,
    {
        W(self)
    }
}

impl R<TosPriorityCtrl2> {
    /// Read access to the `dscp16_23` field.
    pub fn dscp16_23(&self) -> (f: BitsR<u8>)
        ensures
            f.bits == load8(self.0@, 0xff, 0),
    {
        BitsR { bits: (self.0.bits & 0xff) >> 0u8 }
    }
}

impl W<TosPriorityCtrl2> {
    /// Write access to the `dscp16_23` field.
    pub fn dscp16_23(self) -> (f: BitsW<TosPriorityCtrl2>)
        ensures
            f.w == self,
            f.mask == 0xff,
            f.shift == 0,
    {
        BitsW { w: self, mask: 0xff, shift: 0 }
    }
}

/// The `TosPriorityCtrl3` register, at address `0x63`.
#[derive(Clone, Copy, Debug, PartialEq, Eq, Structural, Hash)]
pub struct TosPriorityCtrl3 {
    bits: u8,
}

impl View for TosPriorityCtrl3 {
    type V = u8;

    closed spec fn view(&self) -> u8 {
        self.bits
    }
}

impl Register for TosPriorityCtrl3 {
    open spec fn spec_address() -> Address {
        Address::TosPriorityCtrl3
    }

    closed spec fn spec_from_bits(bits: u8) -> TosPriorityCtrl3 {
        TosPriorityCtrl3 { bits }
    }

    proof fn lemma_from_bits(bits: u8) {
    }

    fn address() -> (a: Address) {
        Address::TosPriorityCtrl3
    }

    fn from_bits(bits: u8) -> (r: TosPriorityCtrl3) {
        TosPriorityCtrl3 { bits }
    }

    fn to_bits(&self) -> (b: u8) {
        self.bits
    }
}

impl Default for TosPriorityCtrl3 {
    fn default() -> (r: TosPriorityCtrl3)
        ensures
            r@ == default_bits(Address::TosPriorityCtrl3),
    {
        TosPriorityCtrl3 { bits: 0x00 }
    }
}

impl From<u8> for TosPriorityCtrl3 {
    fn from(bits: u8) -> (r: TosPriorityCtrl3) {
        TosPriorityCtrl3 { bits }
    }
}

impl vstd::std_specs::convert::FromSpecImpl<u8> for TosPriorityCtrl3 {
    open spec fn obeys_from_spec() -> bool {
        true
    }

    open spec fn from_spec(bits: u8) -> TosPriorityCtrl3 {
        <TosPriorityCtrl3 as Register>::spec_from_bits(bits)
    }
}

impl From<TosPriorityCtrl3> for u8 {
    fn from(r: TosPriorityCtrl3) -> (bits: u8) {
        r.bits
    }
}

impl vstd::std_specs::convert::FromSpecImpl<TosPriorityCtrl3> for u8 {
    open spec fn obeys_from_spec() -> bool {
        true
    }

    open spec fn from_spec(r: TosPriorityCtrl3) -> u8 {
        r@
    }
}

impl From<TosPriorityCtrl3> for State {
    fn from(r: TosPriorityCtrl3) -> (s: State) {
        State::TosPriorityCtrl3(r)
    }
}

impl vstd::std_specs::convert::FromSpecImpl<TosPriorityCtrl3> for State {
    open spec fn obeys_from_spec() -> bool {
        true
    }

    open spec fn from_spec(r: TosPriorityCtrl3) -> State {
        State::TosPriorityCtrl3(r)
    }
}

impl core::convert::TryFrom<State> for TosPriorityCtrl3 {
    type Error = InvalidAddress;

    fn try_from(s: State) -> (r: Result<TosPriorityCtrl3, InvalidAddress>) {
        match s {
            State::TosPriorityCtrl3(r) => Ok(r),
            _ => Err(InvalidAddress),
        }
    }
}

impl vstd::std_specs::convert::TryFromSpecImpl<State> for TosPriorityCtrl3 {
    open spec fn obeys_try_from_spec() -> bool {
        true
    }

    open spec fn try_from_spec(s: State) -> Result<TosPriorityCtrl3, InvalidAddress> {
        match s {
            State::TosPriorityCtrl3(r) => Ok(r),
            _ => Err(InvalidAddress),
        }
    }
}

impl TosPriorityCtrl3 {
    /// Provides read access to the individual fields of the register.
    pub fn read(&self) -> (r: R<TosPriorityCtrl3>)
        ensures
            r.0 == *self,
    {
        R(*self)
    }

    /// Provides write access to the individual fields of the register.
    pub fn write(self) -> (w: W<TosPriorityCtrl3>)
        ensures
            w.0 == self,
    {
        W(self)
    }
}

impl R<TosPriorityCtrl3> {
    /// Read access to the `dscp24_31` field.
    pub fn dscp24_31(&self) -> (f: BitsR<u8>)
        ensures
            f.bits == load8(self.0@, 0xff, 0),
    {
        BitsR { bits: (self.0.bits & 0xff) >> 0u8 }
    }
}

impl W<TosPriorityCtrl3> {
    /// Write access to the `dscp24_31` field.
    pub fn dscp24_31(self) -> (f: BitsW<TosPriorityCtrl3>)
        ensures
            f.w == self,
            f.mask == 0xff,
            f.shift == 0,
    {
        BitsW { w: self, mask: 0xff, shift: 0 }
    }
}

/// The `TosPriorityCtrl4` register, at address `0x64`.
#[derive(Clone, Copy, Debug, PartialEq, Eq, Structural, Hash)]
pub struct TosPriorityCtrl4 {
    bits: u8,
}

impl View for TosPriorityCtrl4 {
    type V = u8;

    closed spec fn view(&self) -> u8 {
        self.bits
    }
}

impl Register for TosPriorityCtrl4 {
    open spec fn spec_address() -> Address {
        Address::TosPriorityCtrl4
    }

    closed spec fn spec_from_bits(bits: u8) -> TosPriorityCtrl4 {
        TosPriorityCtrl4 { bits }
    }

    proof fn lemma_from_bits(bits: u8) {
    }

    fn address() -> (a: Address) {
        Address::TosPriorityCtrl4
    }

    fn from_bits(bits: u8) -> (r: TosPriorityCtrl4) {
        TosPriorityCtrl4 { bits }
    }

    fn to_bits(&self) -> (b: u8) {
        self.bits
    }
}

impl Default for TosPriorityCtrl4 {
    fn default() -> (r: TosPriorityCtrl4)
        ensures
            r@ == default_bits(Address::TosPriorityCtrl4),
    {
        TosPriorityCtrl4 { bits: 0x00 }
    }
}

impl From<u8> for TosPriorityCtrl4 {
    fn from(bits: u8) -> (r: TosPriorityCtrl4) {
        TosPriorityCtrl4 { bits }
    }
}

impl vstd::std_specs::convert::FromSpecImpl<u8> for TosPriorityCtrl4 {
    open spec fn obeys_from_spec() -> bool {
        true
    }

    open spec fn from_spec(bits: u8) -> TosPriorityCtrl4 {
        <TosPriorityCtrl4 as Register>::spec_from_bits(bits)
    }
}

impl From<TosPriorityCtrl4> for u8 {
    fn from(r: TosPriorityCtrl4) -> (bits: u8) {
        r.bits
    }
}

impl vstd::std_specs::convert::FromSpecImpl<TosPriorityCtrl4> for u8 {
    open spec fn obeys_from_spec() -> bool {
        true
    }

    open spec fn from_spec(r: TosPriorityCtrl4) -> u8 {
        r@
    }
}

impl From<TosPriorityCtrl4> for State {
    fn from(r: TosPriorityCtrl4) -> (s: State) {
        State::TosPriorityCtrl4(r)
    }
}

impl vstd::std_specs::convert::FromSpecImpl<TosPriorityCtrl4> for State {
    open spec fn obeys_from_spec() -> bool {
        true
    }

    open spec fn from_spec(r: TosPriorityCtrl4) -> State {
        State::TosPriorityCtrl4(r)
    }
}

impl core::convert::TryFrom<State> for TosPriorityCtrl4 {
    type Error = InvalidAddress;

    fn try_from(s: State) -> (r: Result<TosPriorityCtrl4, InvalidAddress>) {
        match s {
            State::TosPriorityCtrl4(r) => Ok(r),
            _ => Err(InvalidAddress),
        }
    }
}

impl vstd::std_specs::convert::TryFromSpecImpl<State> for TosPriorityCtrl4 {
    open spec fn obeys_try_from_spec() -> bool {
        true
    }

    open spec fn try_from_spec(s: State) -> Result<TosPriorityCtrl4, InvalidAddress> {
        match s {
            State::TosPriorityCtrl4(r) => Ok(r),
            _ => Err(InvalidAddress),
        }
    }
}

impl TosPriorityCtrl4 {
    /// Provides read access to the individual fields of the register.
    pub fn read(&self) -> (r: R<TosPriorityCtrl4>)
        ensures
            r.0 == *self,
    {
        R(*self)
    }

    /// Provides write access to the individual fields of the register.
    pub fn write(self) -> (w: W<TosPriorityCtrl4>)
        ensures
            w.0 == self,
    {
        W(self)
    }
}

impl R<TosPriorityCtrl4> {
    /// Read access to the `dscp32_39` field.
    pub fn dscp32_39(&self) -> (f: BitsR<u8>)
        ensures
            f.bits == load8(self.0@, 0xff, 0),
    {
        BitsR { bits: (self.0.bits & 0xff) >> 0u8 }
    }
}

impl W<TosPriorityCtrl4> {
    /// Write access to the `dscp32_39` field.
    pub fn dscp32_39(self) -> (f: BitsW<TosPriorityCtrl4>)
        ensures
            f.w == self,
            f.mask == 0xff,
            f.shift == 0,
    {
        BitsW { w: self, mask: 0xff, shift: 0 }
    }
}

/// The `TosPriorityCtrl5` register, at address `0x65`.
#[derive(Clone, Copy, Debug, PartialEq, Eq, Structural, Hash)]
pub struct TosPriorityCtrl5 {
    bits: u8,
}

impl View for TosPriorityCtrl5 {
    type V = u8;

    closed spec fn view(&self) -> u8 {
        self.bits
    }
}

impl Register for TosPriorityCtrl5 {
    open spec fn spec_address() -> Address {
        Address::TosPriorityCtrl5
    }

    closed spec fn spec_from_bits(bits: u8) -> TosPriorityCtrl5 {
        TosPriorityCtrl5 { bits }
    }

    proof fn lemma_from_bits(bits: u8) {
    }

    fn address() -> (a: Address) {
        Address::TosPriorityCtrl5
    }

    fn from_bits(bits: u8) -> (r: TosPriorityCtrl5) {
        TosPriorityCtrl5 { bits }
    }

    fn to_bits(&self) -> (b: u8) {
        self.bits
    }
}

impl Default for TosPriorityCtrl5 {
    fn default() -> (r: TosPriorityCtrl5)
        ensures
            r@ == default_bits(Address::TosPriorityCtrl5),
    {
        TosPriorityCtrl5 { bits: 0x00 }
    }
}

impl From<u8> for TosPriorityCtrl5 {
    fn from(bits: u8) -> (r: TosPriorityCtrl5) {
        TosPriorityCtrl5 { bits }
    }
}

impl vstd::std_specs::convert::FromSpecImpl<u8> for TosPriorityCtrl5 {
    open spec fn obeys_from_spec() -> bool {
        true
    }

    open spec fn from_spec(bits: u8) -> TosPriorityCtrl5 {
        <TosPriorityCtrl5 as Register>::spec_from_bits(bits)
    }
}

impl From<TosPriorityCtrl5> for u8 {
    fn from(r: TosPriorityCtrl5) -> (bits: u8) {
        r.bits
    }
}

impl vstd::std_specs::convert::FromSpecImpl<TosPriorityCtrl5> for u8 {
    open spec fn obeys_from_spec() -> bool {
        true
    }

    open spec fn from_spec(r: TosPriorityCtrl5) -> u8 {
        r@
    }
}

impl From<TosPriorityCtrl5> for State {
    fn from(r: TosPriorityCtrl5) -> (s: State) {
        State::TosPriorityCtrl5(r)
    }
}

impl vstd::std_specs::convert::FromSpecImpl<TosPriorityCtrl5> for State {
    open spec fn obeys_from_spec() -> bool {
        true
    }

    open spec fn from_spec(r: TosPriorityCtrl5) -> State {
        State::TosPriorityCtrl5(r)
    }
}

impl core::convert::TryFrom<State> for TosPriorityCtrl5 {
    type Error = InvalidAddress;

    fn try_from(s: State) -> (r: Result<TosPriorityCtrl5, InvalidAddress>) {
        match s {
            State::TosPriorityCtrl5(r) => Ok(r),
            _ => Err(InvalidAddress),
        }
    }
}

impl vstd::std_specs::convert::TryFromSpecImpl<State> for TosPriorityCtrl5 {
    open spec fn obeys_try_from_spec() -> bool {
        true
    }

    open spec fn try_from_spec(s: State) -> Result<TosPriorityCtrl5, InvalidAddress> {
        match s {
            State::TosPriorityCtrl5(r) => Ok(r),
            _ => Err(InvalidAddress),
        }
    }
}

impl TosPriorityCtrl5 {
    /// Provides read access to the individual fields of the register.
    pub fn read(&self) -> (r: R<TosPriorityCtrl5>)
        ensures
            r.0 == *self,
    {
        R(*self)
    }

    /// Provides write access to the individual fields of the register.
    pub fn write(self) -> (w: W<TosPriorityCtrl5>)
        ensures
            w.0 == self,
    {
        W(self)
    }
}

impl R<TosPriorityCtrl5> {
    /// Read access to the `dscp40_47` field.
    pub fn dscp40_47(&self) -> (f: BitsR<u8>)
        ensures
            f.bits == load8(self.0@, 0xff, 0),
    {
        BitsR { bits: (self.0.bits & 0xff) >> 0u8 }
    }
}

impl W<TosPriorityCtrl5> {
    /// Write access to the `dscp40_47` field.
    pub fn dscp40_47(self) -> (f: BitsW<TosPriorityCtrl5>)
        ensures
            f.w == self,
            f.mask == 0xff,
            f.shift == 0,
    {
        BitsW { w: self, mask: 0xff, shift: 0 }
    }
}

/// The `TosPriorityCtrl6` register, at address `0x66`.
#[derive(Clone, Copy, Debug, PartialEq, Eq, Structural, Hash)]
pub struct TosPriorityCtrl6 {
    bits: u8,
}

impl View for TosPriorityCtrl6 {
    type V = u8;

    closed spec fn view(&self) -> u8 {
        self.bits
    }
}

impl Register for TosPriorityCtrl6 {
    open spec fn spec_address() -> Address {
        Address::TosPriorityCtrl6
    }

    closed spec fn spec_from_bits(bits: u8) -> TosPriorityCtrl6 {
        TosPriorityCtrl6 { bits }
    }

    proof fn lemma_from_bits(bits: u8) {
    }

    fn address() -> (a: Address) {
        Address::TosPriorityCtrl6
    }

    fn from_bits(bits: u8) -> (r: TosPriorityCtrl6) {
        TosPriorityCtrl6 { bits }
    }

    fn to_bits(&self) -> (b: u8) {
        self.bits
    }
}

impl Default for TosPriorityCtrl6 {
    fn default() -> (r: TosPriorityCtrl6)
        ensures
            r@ == default_bits(Address::TosPriorityCtrl6),
    {
        TosPriorityCtrl6 { bits: 0x00 }
    }
}

impl From<u8> for TosPriorityCtrl6 {
    fn from(bits: u8) -> (r: TosPriorityCtrl6) {
        TosPriorityCtrl6 { bits }
    }
}

impl vstd::std_specs::convert::FromSpecImpl<u8> for TosPriorityCtrl6 {
    open spec fn obeys_from_spec() -> bool {
        true
    }

    open spec fn from_spec(bits: u8) -> TosPriorityCtrl6 {
        <TosPriorityCtrl6 as Register>::spec_from_bits(bits)
    }
}

impl From<TosPriorityCtrl6> for u8 {
    fn from(r: TosPriorityCtrl6) -> (bits: u8) {
        r.bits
    }
}

impl vstd::std_specs::convert::FromSpecImpl<TosPriorityCtrl6> for u8 {
    open spec fn obeys_from_spec() -> bool {
        true
    }

    open spec fn from_spec(r: TosPriorityCtrl6) -> u8 {
        r@
    }
}

impl From<TosPriorityCtrl6> for State {
    fn from(r: TosPriorityCtrl6) -> (s: State) {
        State::TosPriorityCtrl6(r)
    }
}

impl vstd::std_specs::convert::FromSpecImpl<TosPriorityCtrl6> for State {
    open spec fn obeys_from_spec() -> bool {
        true
    }

    open spec fn from_spec(r: TosPriorityCtrl6) -> State {
        State::TosPriorityCtrl6(r)
    }
}

impl core::convert::TryFrom<State> for TosPriorityCtrl6 {
    type Error = InvalidAddress;

    fn try_from(s: State) -> (r: Result<TosPriorityCtrl6, InvalidAddress>) {
        match s {
            State::TosPriorityCtrl6(r) => Ok(r),
            _ => Err(InvalidAddress),
        }
    }
}

impl vstd::std_specs::convert::TryFromSpecImpl<State> for TosPriorityCtrl6 {
    open spec fn obeys_try_from_spec() -> bool {
        true
    }

    open spec fn try_from_spec(s: State) -> Result<TosPriorityCtrl6, InvalidAddress> {
        match s {
            State::TosPriorityCtrl6(r) => Ok(r),
            _ => Err(InvalidAddress),
        }
    }
}

impl TosPriorityCtrl6 {
    /// Provides read access to the individual fields of the register.
    pub fn read(&self) -> (r: R<TosPriorityCtrl6>)
        ensures
            r.0 == *self,
    {
        R(*self)
    }

    /// Provides write access to the individual fields of the register.
    pub fn write(self) -> (w: W<TosPriorityCtrl6>)
        ensures
            w.0 == self,
    {
        W(self)
    }
}

impl R<TosPriorityCtrl6> {
    /// Read access to the `dscp48_55` field.
    pub fn dscp48_55(&self) -> (f: BitsR<u8>)
        ensures
            f.bits == load8(self.0@, 0xff, 0),
    {
        BitsR { bits: (self.0.bits & 0xff) >> 0u8 }
    }
}

impl W<TosPriorityCtrl6> {
    /// Write access to the `dscp48_55` field.
    pub fn dscp48_55(self) -> (f: BitsW<TosPriorityCtrl6>)
        ensures
            f.w == self,
            f.mask == 0xff,
            f.shift == 0,
    {
        BitsW { w: self, mask: 0xff, shift: 0 }
    }
}

/// The `TosPriorityCtrl7` register, at address `0x67`.
#[derive(Clone, Copy, Debug, PartialEq, Eq, Structural, Hash)]
pub struct TosPriorityCtrl7 {
    bits: u8,
}

impl View for TosPriorityCtrl7 {
    type V = u8;

    closed spec fn view(&self) -> u8 {
        self.bits
    }
}

impl Register for TosPriorityCtrl7 {
    open spec fn spec_address() -> Address {
        Address::TosPriorityCtrl7
    }

    closed spec fn spec_from_bits(bits: u8) -> TosPriorityCtrl7 {
        TosPriorityCtrl7 { bits }
    }

    proof fn lemma_from_bits(bits: u8) {
    }

    fn address() -> (a: Address) {
        Address::TosPriorityCtrl7
    }

    fn from_bits(bits: u8) -> (r: TosPriorityCtrl7) {
        TosPriorityCtrl7 { bits }
    }

    fn to_bits(&self) -> (b: u8) {
        self.bits
    }
}

impl Default for TosPriorityCtrl7 {
    fn default() -> (r: TosPriorityCtrl7)
        ensures
            r@ == default_bits(Address::TosPriorityCtrl7),
    {
        TosPriorityCtrl7 { bits: 0x00 }
    }
}

impl From<u8> for TosPriorityCtrl7 {
    fn from(bits: u8) -> (r: TosPriorityCtrl7) {
        TosPriorityCtrl7 { bits }
    }
}

impl vstd::std_specs::convert::FromSpecImpl<u8> for TosPriorityCtrl7 {
    open spec fn obeys_from_spec() -> bool {
        true
    }

    open spec fn from_spec(bits: u8) -> TosPriorityCtrl7 {
        <TosPriorityCtrl7 as Register>::spec_from_bits(bits)
    }
}

impl From<TosPriorityCtrl7> for u8 {
    fn from(r: TosPriorityCtrl7) -> (bits: u8) {
        r.bits
    }
}

impl vstd::std_specs::convert::FromSpecImpl<TosPriorityCtrl7> for u8 {
    open spec fn obeys_from_spec() -> bool {
        true
    }

    open spec fn from_spec(r: TosPriorityCtrl7) -> u8 {
        r@
    }
}

impl From<TosPriorityCtrl7> for State {
    fn from(r: TosPriorityCtrl7) -> (s: State) {
        State::TosPriorityCtrl7(r)
    }
}

impl vstd::std_specs::convert::FromSpecImpl<TosPriorityCtrl7> for State {
    open spec fn obeys_from_spec() -> bool {
        true
    }

    open spec fn from_spec(r: TosPriorityCtrl7) -> State {
        State::TosPriorityCtrl7(r)
    }
}

impl core::convert::TryFrom<State> for TosPriorityCtrl7 {
    type Error = InvalidAddress;

    fn try_from(s: State) -> (r: Result<TosPriorityCtrl7, InvalidAddress>) {
        match s {
            State::TosPriorityCtrl7(r) => Ok(r),
            _ => Err(InvalidAddress),
        }
    }
}

impl vstd::std_specs::convert::TryFromSpecImpl<State> for TosPriorityCtrl7 {
    open spec fn obeys_try_from_spec() -> bool {
        true
    }

    open spec fn try_from_spec(s: State) -> Result<TosPriorityCtrl7, InvalidAddress> {
        match s {
            State::TosPriorityCtrl7(r) => Ok(r),
            _ => Err(InvalidAddress),
        }
    }
}

impl TosPriorityCtrl7 {
    /// Provides read access to the individual fields of the register.
    pub fn read(&self) -> (r: R<TosPriorityCtrl7>)
        ensures
            r.0 == *self,
    {
        R(*self)
    }

    /// Provides write access to the individual fields of the register.
    pub fn write(self) -> (w: W<TosPriorityCtrl7>)
        ensures
            w.0 == self,
    {
        W(self)
    }
}

impl R<TosPriorityCtrl7> {
    /// Read access to the `dscp56_63` field.
    pub fn dscp56_63(&self) -> (f: BitsR<u8>)
        ensures
            f.bits == load8(self.0@, 0xff, 0),
    {
        BitsR { bits: (self.0.bits & 0xff) >> 0u8 }
    }
}

impl W<TosPriorityCtrl7> {
    /// Write access to the `dscp56_63` field.
    pub fn dscp56_63(self) -> (f: BitsW<TosPriorityCtrl7>)
        ensures
            f.w == self,
            f.mask == 0xff,
            f.shift == 0,
    {
        BitsW { w: self, mask: 0xff, shift: 0 }
    }
}

/// The `TosPriorityCtrl8` register, at address `0x68`.
#[derive(Clone, Copy, Debug, PartialEq, Eq, Structural, Hash)]
pub struct TosPriorityCtrl8 {
    bits: u8,
}

impl View for TosPriorityCtrl8 {
    type V = u8;

    closed spec fn view(&self) -> u8 {
        self.bits
    }
}

impl Register for TosPriorityCtrl8 {
    open spec fn spec_address() -> Address {
        Address::TosPriorityCtrl8
    }

    closed spec fn spec_from_bits(bits: u8) -> TosPriorityCtrl8 {
        TosPriorityCtrl8 { bits }
    }

    proof fn lemma_from_bits(bits: u8) {
    }

    fn address() -> (a: Address) {
        Address::TosPriorityCtrl8
    }

    fn from_bits(bits: u8) -> (r: TosPriorityCtrl8) {
        TosPriorityCtrl8 { bits }
    }

    fn to_bits(&self) -> (b: u8) {
        self.bits
    }
}

impl Default for TosPriorityCtrl8 {
    fn default() -> (r: TosPriorityCtrl8)
        ensures
            r@ == default_bits(Address::TosPriorityCtrl8),
    {
        TosPriorityCtrl8 { bits: 0x00 }
    }
}

impl From<u8> for TosPriorityCtrl8 {
    fn from(bits: u8) -> (r: TosPriorityCtrl8) {
        TosPriorityCtrl8 { bits }
    }
}

impl vstd::std_specs::convert::FromSpecImpl<u8> for TosPriorityCtrl8 {
    open spec fn obeys_from_spec() -> bool {
        true
    }

    open spec fn from_spec(bits: u8) -> TosPriorityCtrl8 {
        <TosPriorityCtrl8 as Register>::spec_from_bits(bits)
    }
}

impl From<TosPriorityCtrl8> for u8 {
    fn from(r: TosPriorityCtrl8) -> (bits: u8) {
        r.bits
    }
}

impl vstd::std_specs::convert::FromSpecImpl<TosPriorityCtrl8> for u8 {
    open spec fn obeys_from_spec() -> bool {
        true
    }

    open spec fn from_spec(r: TosPriorityCtrl8) -> u8 {
        r@
    }
}

impl From<TosPriorityCtrl8> for State {
    fn from(r: TosPriorityCtrl8) -> (s: State) {
        State::TosPriorityCtrl8(r)
    }
}

impl vstd::std_specs::convert::FromSpecImpl<TosPriorityCtrl8> for State {
    open spec fn obeys_from_spec() -> bool {
        true
    }

    open spec fn from_spec(r: TosPriorityCtrl8) -> State {
        State::TosPriorityCtrl8(r)
    }
}

impl core::convert::TryFrom<State> for TosPriorityCtrl8 {
    type Error = InvalidAddress;

    fn try_from(s: State) -> (r: Result<TosPriorityCtrl8, InvalidAddress>) {
        match s {
            State::TosPriorityCtrl8(r) => Ok(r),
            _ => Err(InvalidAddress),
        }
    }
}

impl vstd::std_specs::convert::TryFromSpecImpl<State> for TosPriorityCtrl8 {
    open spec fn obeys_try_from_spec() -> bool {
        true
    }

    open spec fn try_from_spec(s: State) -> Result<TosPriorityCtrl8, InvalidAddress> {
        match s {
            State::TosPriorityCtrl8(r) => Ok(r),
            _ => Err(InvalidAddress),
        }
    }
}

impl TosPriorityCtrl8 {
    /// Provides read access to the individual fields of the register.
    pub fn read(&self) -> (r: R<TosPriorityCtrl8>)
        ensures
            r.0 == *self,
    {
        R(*self)
    }

    /// Provides write access to the individual fields of the register.
    pub fn write(self) -> (w: W<TosPriorityCtrl8>)
        ensures
            w.0 == self,
    {
        W(self)
    }
}

impl R<TosPriorityCtrl8> {
    /// Read access to the `dscp64_71` field.
    pub fn dscp64_71(&self) -> (f: BitsR<u8>)
        ensures
            f.bits == load8(self.0@, 0xff, 0),
    {
        BitsR { bits: (self.0.bits & 0xff) >> 0u8 }
    }
}

impl W<TosPriorityCtrl8> {
    /// Write access to the `dscp64_71` field.
    pub fn dscp64_71(self) -> (f: BitsW<TosPriorityCtrl8>)
        ensures
            f.w == self,
            f.mask == 0xff,
            f.shift == 0,
    {
        BitsW { w: self, mask: 0xff, shift: 0 }
    }
}

/// The `TosPriorityCtrl9` register, at address `0x69`.
#[derive(Clone, Copy, Debug, PartialEq, Eq, Structural, Hash)]
pub struct TosPriorityCtrl9 {
    bits: u8,
}

impl View for TosPriorityCtrl9 {
    type V = u8;

    closed spec fn view(&self) -> u8 {
        self.bits
    }
}

impl Register for TosPriorityCtrl9 {
    open spec fn spec_address() -> Address {
        Address::TosPriorityCtrl9
    }

    closed spec fn spec_from_bits(bits: u8) -> TosPriorityCtrl9 {
        TosPriorityCtrl9 { bits }
    }

    proof fn lemma_from_bits(bits: u8) {
    }

    fn address() -> (a: Address) {
        Address::TosPriorityCtrl9
    }

    fn from_bits(bits: u8) -> (r: TosPriorityCtrl9) {
        TosPriorityCtrl9 { bits }
    }

    fn to_bits(&self) -> (b: u8) {
        self.bits
    }
}

impl Default for TosPriorityCtrl9 {
    fn default() -> (r: TosPriorityCtrl9)
        ensures
            r@ == default_bits(Address::TosPriorityCtrl9),
    {
        TosPriorityCtrl9 { bits: 0x00 }
    }
}

impl From<u8> for TosPriorityCtrl9 {
    fn from(bits: u8) -> (r: TosPriorityCtrl9) {
        TosPriorityCtrl9 { bits }
    }
}

impl vstd::std_specs::convert::FromSpecImpl<u8> for TosPriorityCtrl9 {
    open spec fn obeys_from_spec() -> bool {
        true
    }

    open spec fn from_spec(bits: u8) -> TosPriorityCtrl9 {
        <TosPriorityCtrl9 as Register>::spec_from_bits(bits)
    }
}

impl From<TosPriorityCtrl9> for u8 {
    fn from(r: TosPriorityCtrl9) -> (bits: u8) {
        r.bits
    }
}

impl vstd::std_specs::convert::FromSpecImpl<TosPriorityCtrl9> for u8 {
    open spec fn obeys_from_spec() -> bool {
        true
    }

    open spec fn from_spec(r: TosPriorityCtrl9) -> u8 {
        r@
    }
}

impl From<TosPriorityCtrl9> for State {
    fn from(r: TosPriorityCtrl9) -> (s: State) {
        State::TosPriorityCtrl9(r)
    }
}

impl vstd::std_specs::convert::FromSpecImpl<TosPriorityCtrl9> for State {
    open spec fn obeys_from_spec() -> bool {
        true
    }

    open spec fn from_spec(r: TosPriorityCtrl9) -> State {
        State::TosPriorityCtrl9(r)
    }
}

impl core::convert::TryFrom<State> for TosPriorityCtrl9 {
    type Error = InvalidAddress;

    fn try_from(s: State) -> (r: Result<TosPriorityCtrl9, InvalidAddress>) {
        match s {
            State::TosPriorityCtrl9(r) => Ok(r),
            _ => Err(InvalidAddress),
        }
    }
}

impl vstd::std_specs::convert::TryFromSpecImpl<State> for TosPriorityCtrl9 {
    open spec fn obeys_try_from_spec() -> bool {
        true
    }

    open spec fn try_from_spec(s: State) -> Result<TosPriorityCtrl9, InvalidAddress> {
        match s {
            State::TosPriorityCtrl9(r) => Ok(r),
            _ => Err(InvalidAddress),
        }
    }
}

impl TosPriorityCtrl9 {
    /// Provides read access to the individual fields of the register.
    pub fn read(&self) -> (r: R<TosPriorityCtrl9>)
        ensures
            r.0 == *self,
    {
        R(*self)
    }

    /// Provides write access to the individual fields of the register.
    pub fn write(self) -> (w: W<TosPriorityCtrl9>)
        ensures
            w.0 == self,
    {
        W(self)
    }
}

impl R<TosPriorityCtrl9> {
    /// Read access to the `dscp72_79` field.
    pub fn dscp72_79(&self) -> (f: BitsR<u8>)
        ensures
            f.bits == load8(self.0@, 0xff, 0),
    {
        BitsR { bits: (self.0.bits & 0xff) >> 0u8 }
    }
}

impl W<TosPriorityCtrl9> {
    /// Write access to the `dscp72_79` field.
    pub fn dscp72_79(self) -> (f: BitsW<TosPriorityCtrl9>)
        ensures
            f.w == self,
            f.mask == 0xff,
            f.shift == 0,
    {
        BitsW { w: self, mask: 0xff, shift: 0 }
    }
}

/// The `TosPriorityCtrl10` register, at address `0x6a`.
#[derive(Clone, Copy, Debug, PartialEq, Eq, Structural, Hash)]
pub struct TosPriorityCtrl10 {
    bits: u8,
}

impl View for TosPriorityCtrl10 {
    type V = u8;

    closed spec fn view(&self) -> u8 {
        self.bits
    }
}

impl Register for TosPriorityCtrl10 {
    open spec fn spec_address() -> Address {
        Address::TosPriorityCtrl10
    }

    closed spec fn spec_from_bits(bits: u8) -> TosPriorityCtrl10 {
        TosPriorityCtrl10 { bits }
    }

    proof fn lemma_from_bits(bits: u8) {
    }

    fn address() -> (a: Address) {
        Address::TosPriorityCtrl10
    }

    fn from_bits(bits: u8) -> (r: TosPriorityCtrl10) {
        TosPriorityCtrl10 { bits }
    }

    fn to_bits(&self) -> (b: u8) {
        self.bits
    }
}

impl Default for TosPriorityCtrl10 {
    fn default() -> (r: TosPriorityCtrl10)
        ensures
            r@ == default_bits(Address::TosPriorityCtrl10),
    {
        TosPriorityCtrl10 { bits: 0x00 }
    }
}

impl From<u8> for TosPriorityCtrl10 {
    fn from(bits: u8) -> (r: TosPriorityCtrl10) {
        TosPriorityCtrl10 { bits }
    }
}

impl vstd::std_specs::convert::FromSpecImpl<u8> for TosPriorityCtrl10 {
    open spec fn obeys_from_spec() -> bool {
        true
    }

    open spec fn from_spec(bits: u8) -> TosPriorityCtrl10 {
        <TosPriorityCtrl10 as Register>::spec_from_bits(bits)
    }
}

impl From<TosPriorityCtrl10> for u8 {
    fn from(r: TosPriorityCtrl10) -> (bits: u8) {
        r.bits
    }
}

impl vstd::std_specs::convert::FromSpecImpl<TosPriorityCtrl10> for u8 {
    open spec fn obeys_from_spec() -> bool {
        true
    }

    open spec fn from_spec(r: TosPriorityCtrl10) -> u8 {
        r@
    }
}

impl From<TosPriorityCtrl10> for State {
    fn from(r: TosPriorityCtrl10) -> (s: State) {
        State::TosPriorityCtrl10(r)
    }
}

impl vstd::std_specs::convert::FromSpecImpl<TosPriorityCtrl10> for State {
    open spec fn obeys_from_spec() -> bool {
        true
    }

    open spec fn from_spec(r: TosPriorityCtrl10) -> State {
        State::TosPriorityCtrl10(r)
    }
}

impl core::convert::TryFrom<State> for TosPriorityCtrl10 {
    type Error = InvalidAddress;

    fn try_from(s: State) -> (r: Result<TosPriorityCtrl10, InvalidAddress>) {
        match s {
            State::TosPriorityCtrl10(r) => Ok(r),
            _ => Err(InvalidAddress),
        }
    }
}

impl vstd::std_specs::convert::TryFromSpecImpl<State> for TosPriorityCtrl10 {
    open spec fn obeys_try_from_spec() -> bool {
        true
    }

    open spec fn try_from_spec(s: State) -> Result<TosPriorityCtrl10, InvalidAddress> {
        match s {
            State::TosPriorityCtrl10(r) => Ok(r),
            _ => Err(InvalidAddress),
        }
    }
}

impl TosPriorityCtrl10 {
    /// Provides read access to the individual fields of the register.
    pub fn read(&self) -> (r: R<TosPriorityCtrl10>)
        ensures
            r.0 == *self,
    {
        R(*self)
    }

    /// Provides write access to the individual fields of the register.
    pub fn write(self) -> (w: W<TosPriorityCtrl10>)
        ensures
            w.0 == self,
    {
        W(self)
    }
}

impl R<TosPriorityCtrl10> {
    /// Read access to the `dscp80_87` field.
    pub fn dscp80_87(&self) -> (f: BitsR<u8>)
        ensures
            f.bits == load8(self.0@, 0xff, 0),
    {
        BitsR { bits: (self.0.bits & 0xff) >> 0u8 }
    }
}

impl W<TosPriorityCtrl10> {
    /// Write access to the `dscp80_87` field.
    pub fn dscp80_87(self) -> (f: BitsW<TosPriorityCtrl10>)
        ensures
            f.w == self,
            f.mask == 0xff,
            f.shift == 0,
    {
        BitsW { w: self, mask: 0xff, shift: 0 }
    }
}

/// The `TosPriorityCtrl11` register, at address `0x6b`.
#[derive(Clone, Copy, Debug, PartialEq, Eq, Structural, Hash)]
pub struct TosPriorityCtrl11 {
    bits: u8,
}

impl View for TosPriorityCtrl11 {
    type V = u8;

    closed spec fn view(&self) -> u8 {
        self.bits
    }
}

impl Register for TosPriorityCtrl11 {
    open spec fn spec_address() -> Address {
        Address::TosPriorityCtrl11
    }

    closed spec fn spec_from_bits(bits: u8) -> TosPriorityCtrl11 {
        TosPriorityCtrl11 { bits }
    }

    proof fn lemma_from_bits(bits: u8) {
    }

    fn address() -> (a: Address) {
        Address::TosPriorityCtrl11
    }

    fn from_bits(bits: u8) -> (r: TosPriorityCtrl11) {
        TosPriorityCtrl11 { bits }
    }

    fn to_bits(&self) -> (b: u8) {
        self.bits
    }
}

impl Default for TosPriorityCtrl11 {
    fn default() -> (r: TosPriorityCtrl11)
        ensures
            r@ == default_bits(Address::TosPriorityCtrl11),
    {
        TosPriorityCtrl11 { bits: 0x00 }
    }
}

impl From<u8> for TosPriorityCtrl11 {
    fn from(bits: u8) -> (r: TosPriorityCtrl11) {
        TosPriorityCtrl11 { bits }
    }
}

impl vstd::std_specs::convert::FromSpecImpl<u8> for TosPriorityCtrl11 {
    open spec fn obeys_from_spec() -> bool {
        true
    }

    open spec fn from_spec(bits: u8) -> TosPriorityCtrl11 {
        <TosPriorityCtrl11 as Register>::spec_from_bits(bits)
    }
}

impl From<TosPriorityCtrl11> for u8 {
    fn from(r: TosPriorityCtrl11) -> (bits: u8) {
        r.bits
    }
}

impl vstd::std_specs::convert::FromSpecImpl<TosPriorityCtrl11> for u8 {
    open spec fn obeys_from_spec() -> bool {
        true
    }

    open spec fn from_spec(r: TosPriorityCtrl11) -> u8 {
        r@
    }
}

impl From<TosPriorityCtrl11> for State {
    fn from(r: TosPriorityCtrl11) -> (s: State) {
        State::TosPriorityCtrl11(r)
    }
}

impl vstd::std_specs::convert::FromSpecImpl<TosPriorityCtrl11> for State {
    open spec fn obeys_from_spec() -> bool {
        true
    }

    open spec fn from_spec(r: TosPriorityCtrl11) -> State {
        State::TosPriorityCtrl11(r)
    }
}

impl core::convert::TryFrom<State> for TosPriorityCtrl11 {
    type Error = InvalidAddress;

    fn try_from(s: State) -> (r: Result<TosPriorityCtrl11, InvalidAddress>) {
        match s {
            State::TosPriorityCtrl11(r) => Ok(r),
            _ => Err(InvalidAddress),
        }
    }
}

impl vstd::std_specs::convert::TryFromSpecImpl<State> for TosPriorityCtrl11 {
    open spec fn obeys_try_from_spec() -> bool {
        true
    }

    open spec fn try_from_spec(s: State) -> Result<TosPriorityCtrl11, InvalidAddress> {
        match s {
            State::TosPriorityCtrl11(r) => Ok(r),
            _ => Err(InvalidAddress),
        }
    }
}

impl TosPriorityCtrl11 {
    /// Provides read access to the individual fields of the register.
    pub fn read(&self) -> (r: R<TosPriorityCtrl11>)
        ensures
            r.0 == *self,
    {
        R(*self)
    }

    /// Provides write access to the individual fields of the register.
    pub fn write(self) -> (w: W<TosPriorityCtrl11>)
        ensures
            w.0 == self,
    {
        W(self)
    }
}

impl R<TosPriorityCtrl11> {
    /// Read access to the `dscp88_95` field.
    pub fn dscp88_95(&self) -> (f: BitsR<u8>)
        ensures
            f.bits == load8(self.0@, 0xff, 0),
    {
        BitsR { bits: (self.0.bits & 0xff) >> 0u8 }
    }
}

impl W<TosPriorityCtrl11> {
    /// Write access to the `dscp88_95` field.
    pub fn dscp88_95(self) -> (f: BitsW<TosPriorityCtrl11>)
        ensures
            f.w == self,
            f.mask == 0xff,
            f.shift == 0,
    {
        BitsW { w: self, mask: 0xff, shift: 0 }
    }
}

/// The `TosPriorityCtrl12` register, at address `0x6c`.
#[derive(Clone, Copy, Debug, PartialEq, Eq, Structural, Hash)]
pub struct TosPriorityCtrl12 {
    bits: u8,
}

impl View for TosPriorityCtrl12 {
    type V = u8;

    closed spec fn view(&self) -> u8 {
        self.bits
    }
}

impl Register for TosPriorityCtrl12 {
    open spec fn spec_address() -> Address {
        Address::TosPriorityCtrl12
    }

    closed spec fn spec_from_bits(bits: u8) -> TosPriorityCtrl12 {
        TosPriorityCtrl12 { bits }
    }

    proof fn lemma_from_bits(bits: u8) {
    }

    fn address() -> (a: Address) {
        Address::TosPriorityCtrl12
    }

    fn from_bits(bits: u8) -> (r: TosPriorityCtrl12) {
        TosPriorityCtrl12 { bits }
    }

    fn to_bits(&self) -> (b: u8) {
        self.bits
    }
}

impl Default for TosPriorityCtrl12 {
    fn default() -> (r: TosPriorityCtrl12)
        ensures
            r@ == default_bits(Address::TosPriorityCtrl12),
    {
        TosPriorityCtrl12 { bits: 0x00 }
    }
}

impl From<u8> for TosPriorityCtrl12 {
    fn from(bits: u8) -> (r: TosPriorityCtrl12) {
        TosPriorityCtrl12 { bits }
    }
}

impl vstd::std_specs::convert::FromSpecImpl<u8> for TosPriorityCtrl12 {
    open spec fn obeys_from_spec() -> bool {
        true
    }

    open spec fn from_spec(bits: u8) -> TosPriorityCtrl12 {
        <TosPriorityCtrl12 as Register>::spec_from_bits(bits)
    }
}

impl From<TosPriorityCtrl12> for u8 {
    fn from(r: TosPriorityCtrl12) -> (bits: u8) {
        r.bits
    }
}

impl vstd::std_specs::convert::FromSpecImpl<TosPriorityCtrl12> for u8 {
    open spec fn obeys_from_spec() -> bool {
        true
    }

    open spec fn from_spec(r: TosPriorityCtrl12) -> u8 {
        r@
    }
}

impl From<TosPriorityCtrl12> for State {
    fn from(r: TosPriorityCtrl12) -> (s: State) {
        State::TosPriorityCtrl12(r)
    }
}

impl vstd::std_specs::convert::FromSpecImpl<TosPriorityCtrl12> for State {
    open spec fn obeys_from_spec() -> bool {
        true
    }

    open spec fn from_spec(r: TosPriorityCtrl12) -> State {
        State::TosPriorityCtrl12(r)
    }
}

impl core::convert::TryFrom<State> for TosPriorityCtrl12 {
    type Error = InvalidAddress;

    fn try_from(s: State) -> (r: Result<TosPriorityCtrl12, InvalidAddress>) {
        match s {
            State::TosPriorityCtrl12(r) => Ok(r),
            _ => Err(InvalidAddress),
        }
    }
}

impl vstd::std_specs::convert::TryFromSpecImpl<State> for TosPriorityCtrl12 {
    open spec fn obeys_try_from_spec() -> bool {
        true
    }

    open spec fn try_from_spec(s: State) -> Result<TosPriorityCtrl12, InvalidAddress> {
        match s {
            State::TosPriorityCtrl12(r) => Ok(r),
            _ => Err(InvalidAddress),
        }
    }
}

impl TosPriorityCtrl12 {
    /// Provides read access to the individual fields of the register.
    pub fn read(&self) -> (r: R<TosPriorityCtrl12>)
        ensures
            r.0 == *self,
    {
        R(*self)
    }

    /// Provides write access to the individual fields of the register.
    pub fn write(self) -> (w: W<TosPriorityCtrl12>)
        ensures
            w.0 == self,
    {
        W(self)
    }
}

impl R<TosPriorityCtrl12> {
    /// Read access to the `dscp96_103` field.
    pub fn dscp96_103(&self) -> (f: BitsR<u8>)
        ensures
            f.bits == load8(self.0@, 0xff, 0),
    {
        BitsR { bits: (self.0.bits & 0xff) >> 0u8 }
    }
}

impl W<TosPriorityCtrl12> {
    /// Write access to the `dscp96_103` field.
    pub fn dscp96_103(self) -> (f: BitsW<TosPriorityCtrl12>)
        ensures
            f.w == self,
            f.mask == 0xff,
            f.shift == 0,
    {
        BitsW { w: self, mask: 0xff, shift: 0 }
    }
}

/// The `TosPriorityCtrl13` register, at address `0x6d`.
#[derive(Clone, Copy, Debug, PartialEq, Eq, Structural, Hash)]
pub struct TosPriorityCtrl13 {
    bits: u8,
}

impl View for TosPriorityCtrl13 {
    type V = u8;

    closed spec fn view(&self) -> u8 {
        self.bits
    }
}

impl Register for TosPriorityCtrl13 {
    open spec fn spec_address() -> Address {
        Address::TosPriorityCtrl13
    }

    closed spec fn spec_from_bits(bits: u8) -> TosPriorityCtrl13 {
        TosPriorityCtrl13 { bits }
    }

    proof fn lemma_from_bits(bits: u8) {
    }

    fn address() -> (a: Address) {
        Address::TosPriorityCtrl13
    }

    fn from_bits(bits: u8) -> (r: TosPriorityCtrl13) {
        TosPriorityCtrl13 { bits }
    }

    fn to_bits(&self) -> (b: u8) {
        self.bits
    }
}

impl Default for TosPriorityCtrl13 {
    fn default() -> (r: TosPriorityCtrl13)
        ensures
            r@ == default_bits(Address::TosPriorityCtrl13),
    {
        TosPriorityCtrl13 { bits: 0x00 }
    }
}

impl From<u8> for TosPriorityCtrl13 {
    fn from(bits: u8) -> (r: TosPriorityCtrl13) {
        TosPriorityCtrl13 { bits }
    }
}

impl vstd::std_specs::convert::FromSpecImpl<u8> for TosPriorityCtrl13 {
    open spec fn obeys_from_spec() -> bool {
        true
    }

    open spec fn from_spec(bits: u8) -> TosPriorityCtrl13 {
        <TosPriorityCtrl13 as Register>::spec_from_bits(bits)
    }
}

impl From<TosPriorityCtrl13> for u8 {
    fn from(r: TosPriorityCtrl13) -> (bits: u8) {
        r.bits
    }
}

impl vstd::std_specs::convert::FromSpecImpl<TosPriorityCtrl13> for u8 {
    open spec fn obeys_from_spec() -> bool {
        true
    }

    open spec fn from_spec(r: TosPriorityCtrl13) -> u8 {
        r@
    }
}

impl From<TosPriorityCtrl13> for State {
    fn from(r: TosPriorityCtrl13) -> (s: State) {
        State::TosPriorityCtrl13(r)
    }
}

impl vstd::std_specs::convert::FromSpecImpl<TosPriorityCtrl13> for State {
    open spec fn obeys_from_spec() -> bool {
        true
    }

    open spec fn from_spec(r: TosPriorityCtrl13) -> State {
        State::TosPriorityCtrl13(r)
    }
}

impl core::convert::TryFrom<State> for TosPriorityCtrl13 {
    type Error = InvalidAddress;

    fn try_from(s: State) -> (r: Result<TosPriorityCtrl13, InvalidAddress>) {
        match s {
            State::TosPriorityCtrl13(r) => Ok(r),
            _ => Err(InvalidAddress),
        }
    }
}

impl vstd::std_specs::convert::TryFromSpecImpl<State> for TosPriorityCtrl13 {
    open spec fn obeys_try_from_spec() -> bool {
        true
    }

    open spec fn try_from_spec(s: State) -> Result<TosPriorityCtrl13, InvalidAddress> {
        match s {
            State::TosPriorityCtrl13(r) => Ok(r),
            _ => Err(InvalidAddress),
        }
    }
}

impl TosPriorityCtrl13 {
    /// Provides read access to the individual fields of the register.
    pub fn read(&self) -> (r: R<TosPriorityCtrl13>)
        ensures
            r.0 == *self,
    {
        R(*self)
    }

    /// Provides write access to the individual fields of the register.
    pub fn write(self) -> (w: W<TosPriorityCtrl13>)
        ensures
            w.0 == self,
    {
        W(self)
    }
}

impl R<TosPriorityCtrl13> {
    /// Read access to the `dscp104_111` field.
    pub fn dscp104_111(&self) -> (f: BitsR<u8>)
        ensures
            f.bits == load8(self.0@, 0xff, 0),
    {
        BitsR { bits: (self.0.bits & 0xff) >> 0u8 }
    }
}

impl W<TosPriorityCtrl13> {
    /// Write access to the `dscp104_111` field.
    pub fn dscp104_111(self) -> (f: BitsW<TosPriorityCtrl13>)
        ensures
            f.w == self,
            f.mask == 0xff,
            f.shift == 0,
    {
        BitsW { w: self, mask: 0xff, shift: 0 }
    }
}

/// The `TosPriorityCtrl14` register, at address `0x6e`.
#[derive(Clone, Copy, Debug, PartialEq, Eq, Structural, Hash)]
pub struct TosPriorityCtrl14 {
    bits: u8,
}

impl View for TosPriorityCtrl14 {
    type V = u8;

    closed spec fn view(&self) -> u8 {
        self.bits
    }
}

impl Register for TosPriorityCtrl14 {
    open spec fn spec_address() -> Address {
        Address::TosPriorityCtrl14
    }

    closed spec fn spec_from_bits(bits: u8) -> TosPriorityCtrl14 {
        TosPriorityCtrl14 { bits }
    }

    proof fn lemma_from_bits(bits: u8) {
    }

    fn address() -> (a: Address) {
        Address::TosPriorityCtrl14
    }

    fn from_bits(bits: u8) -> (r: TosPriorityCtrl14) {
        TosPriorityCtrl14 { bits }
    }

    fn to_bits(&self) -> (b: u8) {
        self.bits
    }
}

impl Default for TosPriorityCtrl14 {
    fn default() -> (r: TosPriorityCtrl14)
        ensures
            r@ == default_bits(Address::TosPriorityCtrl14),
    {
        TosPriorityCtrl14 { bits: 0x00 }
    }
}

impl From<u8> for TosPriorityCtrl14 {
    fn from(bits: u8) -> (r: TosPriorityCtrl14) {
        TosPriorityCtrl14 { bits }
    }
}

impl vstd::std_specs::convert::FromSpecImpl<u8> for TosPriorityCtrl14 {
    open spec fn obeys_from_spec() -> bool {
        true
    }

    open spec fn from_spec(bits: u8) -> TosPriorityCtrl14 {
        <TosPriorityCtrl14 as Register>::spec_from_bits(bits)
    }
}

impl From<TosPriorityCtrl14> for u8 {
    fn from(r: TosPriorityCtrl14) -> (bits: u8) {
        r.bits
    }
}

impl vstd::std_specs::convert::FromSpecImpl<TosPriorityCtrl14> for u8 {
    open spec fn obeys_from_spec() -> bool {
        true
    }

    open spec fn from_spec(r: TosPriorityCtrl14) -> u8 {
        r@
    }
}

impl From<TosPriorityCtrl14> for State {
    fn from(r: TosPriorityCtrl14) -> (s: State) {
        State::TosPriorityCtrl14(r)
    }
}

impl vstd::std_specs::convert::FromSpecImpl<TosPriorityCtrl14> for State {
    open spec fn obeys_from_spec() -> bool {
        true
    }

    open spec fn from_spec(r: TosPriorityCtrl14) -> State {
        State::TosPriorityCtrl14(r)
    }
}

impl core::convert::TryFrom<State> for TosPriorityCtrl14 {
    type Error = InvalidAddress;

    fn try_from(s: State) -> (r: Result<TosPriorityCtrl14, InvalidAddress>) {
        match s {
            State::TosPriorityCtrl14(r) => Ok(r),
            _ => Err(InvalidAddress),
        }
    }
}

impl vstd::std_specs::convert::TryFromSpecImpl<State> for TosPriorityCtrl14 {
    open spec fn obeys_try_from_spec() -> bool {
        true
    }

    open spec fn try_from_spec(s: State) -> Result<TosPriorityCtrl14, InvalidAddress> {
        match s {
            State::TosPriorityCtrl14(r) => Ok(r),
            _ => Err(InvalidAddress),
        }
    }
}

impl TosPriorityCtrl14 {
    /// Provides read access to the individual fields of the register.
    pub fn read(&self) -> (r: R<TosPriorityCtrl14>)
        ensures
            r.0 == *self,
    {
        R(*self)
    }

    /// Provides write access to the individual fields of the register.
    pub fn write(self) -> (w: W<TosPriorityCtrl14>)
        ensures
            w.0 == self,
    {
        W(self)
    }
}

impl R<TosPriorityCtrl14> {
    /// Read access to the `dscp112_119` field.
    pub fn dscp112_119(&self) -> (f: BitsR<u8>)
        ensures
            f.bits == load8(self.0@, 0xff, 0),
    {
        BitsR { bits: (self.0.bits & 0xff) >> 0u8 }
    }
}

impl W<TosPriorityCtrl14> {
    /// Write access to the `dscp112_119` field.
    pub fn dscp112_119(self) -> (f: BitsW<TosPriorityCtrl14>)
        ensures
            f.w == self,
            f.mask == 0xff,
            f.shift == 0,
    {
        BitsW { w: self, mask: 0xff, shift: 0 }
    }
}

/// The `TosPriorityCtrl15` register, at address `0x6f`.
#[derive(Clone, Copy, Debug, PartialEq, Eq, Structural, Hash)]
pub struct TosPriorityCtrl15 {
    bits: u8,
}

impl View for TosPriorityCtrl15 {
    type V = u8;

    closed spec fn view(&self) -> u8 {
        self.bits
    }
}

impl Register for TosPriorityCtrl15 {
    open spec fn spec_address() -> Address {
        Address::TosPriorityCtrl15
    }

    closed spec fn spec_from_bits(bits: u8) -> TosPriorityCtrl15 {
        TosPriorityCtrl15 { bits }
    }

    proof fn lemma_from_bits(bits: u8) {
    }

    fn address() -> (a: Address) {
        Address::TosPriorityCtrl15
    }

    fn from_bits(bits: u8) -> (r: TosPriorityCtrl15) {
        TosPriorityCtrl15 { bits }
    }

    fn to_bits(&self) -> (b: u8) {
        self.bits
    }
}

impl Default for TosPriorityCtrl15 {
    fn default() -> (r: TosPriorityCtrl15)
        ensures
            r@ == default_bits(Address::TosPriorityCtrl15),
    {
        TosPriorityCtrl15 { bits: 0x00 }
    }
}

impl From<u8> for TosPriorityCtrl15 {
    fn from(bits: u8) -> (r: TosPriorityCtrl15) {
        TosPriorityCtrl15 { bits }
    }
}

impl vstd::std_specs::convert::FromSpecImpl<u8> for TosPriorityCtrl15 {
    open spec fn obeys_from_spec() -> bool {
        true
    }

    open spec fn from_spec(bits: u8) -> TosPriorityCtrl15 {
        <TosPriorityCtrl15 as Register>::spec_from_bits(bits)
    }
}

impl From<TosPriorityCtrl15> for u8 {
    fn from(r: TosPriorityCtrl15) -> (bits: u8) {
        r.bits
    }
}

impl vstd::std_specs::convert::FromSpecImpl<TosPriorityCtrl15> for u8 {
    open spec fn obeys_from_spec() -> bool {
        true
    }

    open spec fn from_spec(r: TosPriorityCtrl15) -> u8 {
        r@
    }
}

impl From<TosPriorityCtrl15> for State {
    fn from(r: TosPriorityCtrl15) -> (s: State) {
        State::TosPriorityCtrl15(r)
    }
}

impl vstd::std_specs::convert::FromSpecImpl<TosPriorityCtrl15> for State {
    open spec fn obeys_from_spec() -> bool {
        true
    }

    open spec fn from_spec(r: TosPriorityCtrl15) -> State {
        State::TosPriorityCtrl15(r)
    }
}

impl core::convert::TryFrom<State> for TosPriorityCtrl15 {
    type Error = InvalidAddress;

    fn try_from(s: State) -> (r: Result<TosPriorityCtrl15, InvalidAddress>) {
        match s {
            State::TosPriorityCtrl15(r) => Ok(r),
            _ => Err(InvalidAddress),
        }
    }
}

impl vstd::std_specs::convert::TryFromSpecImpl<State> for TosPriorityCtrl15 {
    open spec fn obeys_try_from_spec() -> bool {
        true
    }

    open spec fn try_from_spec(s: State) -> Result<TosPriorityCtrl15, InvalidAddress> {
        match s {
            State::TosPriorityCtrl15(r) => Ok(r),
            _ => Err(InvalidAddress),
        }
    }
}

impl TosPriorityCtrl15 {
    /// Provides read access to the individual fields of the register.
    pub fn read(&self) -> (r: R<TosPriorityCtrl15>)
        ensures
            r.0 == *self,
    {
        R(*self)
    }

    /// Provides write access to the individual fields of the register.
    pub fn write(self) -> (w: W<TosPriorityCtrl15>)
        ensures
            w.0 == self,
    {
        W(self)
    }
}

impl R<TosPriorityCtrl15> {
    /// Read access to the `dscp120_127` field.
    pub fn dscp120_127(&self) -> (f: BitsR<u8>)
        ensures
            f.bits == load8(self.0@, 0xff, 0),
    {
        BitsR { bits: (self.0.bits & 0xff) >> 0u8 }
    }
}

impl W<TosPriorityCtrl15> {
    /// Write access to the `dscp120_127` field.
    pub fn dscp120_127(self) -> (f: BitsW<TosPriorityCtrl15>)
        ensures
            f.w == self,
            f.mask == 0xff,
            f.shift == 0,
    {
        BitsW { w: self, mask: 0xff, shift: 0 }
    }
}

/// The `MacAddr0` register, at address `0x70`.
#[derive(Clone, Copy, Debug, PartialEq, Eq, Structural, Hash)]
pub struct MacAddr0 {
    bits: u8,
}

impl View for MacAddr0 {
    type V = u8;

    closed spec fn view(&self) -> u8 {
        self.bits
    }
}

impl Register for MacAddr0 {
    open spec fn spec_address() -> Address {
        Address::MacAddr0
    }

    closed spec fn spec_from_bits(bits: u8) -> MacAddr0 {
        MacAddr0 { bits }
    }

    proof fn lemma_from_bits(bits: u8) {
    }

    fn address() -> (a: Address) {
        Address::MacAddr0
    }

    fn from_bits(bits: u8) -> (r: MacAddr0) {
        MacAddr0 { bits }
    }

    fn to_bits(&self) -> (b: u8) {
        self.bits
    }
}

impl Default for MacAddr0 {
    fn default() -> (r: MacAddr0)
        ensures
            r@ == default_bits(Address::MacAddr0),
    {
        MacAddr0 { bits: 0x00 }
    }
}

impl From<u8> for MacAddr0 {
    fn from(bits: u8) -> (r: MacAddr0) {
        MacAddr0 { bits }
    }
}

impl vstd::std_specs::convert::FromSpecImpl<u8> for MacAddr0 {
    open spec fn obeys_from_spec() -> bool {
        true
    }

    open spec fn from_spec(bits: u8) -> MacAddr0 {
        <MacAddr0 as Register>::spec_from_bits(bits)
    }
}

impl From<MacAddr0> for u8 {
    fn from(r: MacAddr0) -> (bits: u8) {
        r.bits
    }
}

impl vstd::std_specs::convert::FromSpecImpl<MacAddr0> for u8 {
    open spec fn obeys_from_spec() -> bool {
        true
    }

    open spec fn from_spec(r: MacAddr0) -> u8 {
        r@
    }
}

impl From<MacAddr0> for State {
    fn from(r: MacAddr0) -> (s: State) {
        State::MacAddr0(r)
    }
}

impl vstd::std_specs::convert::FromSpecImpl<MacAddr0> for State {
    open spec fn obeys_from_spec() -> bool {
        true
    }

    open spec fn from_spec(r: MacAddr0) -> State {
        State::MacAddr0(r)
    }
}

impl core::convert::TryFrom<State> for MacAddr0 {
    type Error = InvalidAddress;

    fn try_from(s: State) -> (r: Result<MacAddr0, InvalidAddress>) {
        match s {
            State::MacAddr0(r) => Ok(r),
            _ => Err(InvalidAddress),
        }
    }
}

impl vstd::std_specs::convert::TryFromSpecImpl<State> for MacAddr0 {
    open spec fn obeys_try_from_spec() -> bool {
        true
    }

    open spec fn try_from_spec(s: State) -> Result<MacAddr0, InvalidAddress> {
        match s {
            State::MacAddr0(r) => Ok(r),
            _ => Err(InvalidAddress),
        }
    }
}

impl MacAddr0 {
    /// Provides read access to the individual fields of the register.
    pub fn read(&self) -> (r: R<MacAddr0>)
        ensures
            r.0 == *self,
    {
        R(*self)
    }

    /// Provides write access to the individual fields of the register.
    pub fn write(self) -> (w: W<MacAddr0>)
        ensures
            w.0 == self,
    {
        W(self)
    }
}

impl R<MacAddr0> {
    /// Read access to the `data` field.
    pub fn data(&self) -> (f: BitsR<u8>)
        ensures
            f.bits == load8(self.0@, 0xff, 0),
    {
        BitsR { bits: (self.0.bits & 0xff) >> 0u8 }
    }
}

impl W<MacAddr0> {
    /// Write access to the `data` field.
    pub fn data(self) -> (f: BitsW<MacAddr0>)
        ensures
            f.w == self,
            f.mask == 0xff,
            f.shift == 0,
    {
        BitsW { w: self, mask: 0xff, shift: 0 }
    }
}

/// The `MacAddr1` register, at address `0x71`.
#[derive(Clone, Copy, Debug, PartialEq, Eq, Structural, Hash)]
pub struct MacAddr1 {
    bits: u8,
}

impl View for MacAddr1 {
    type V = u8;

    closed spec fn view(&self) -> u8 {
        self.bits
    }
}

impl Register for MacAddr1 {
    open spec fn spec_address() -> Address {
        Address::MacAddr1
    }

    closed spec fn spec_from_bits(bits: u8) -> MacAddr1 {
        MacAddr1 { bits }
    }

    proof fn lemma_from_bits(bits: u8) {
    }

    fn address() -> (a: Address) {
        Address::MacAddr1
    }

    fn from_bits(bits: u8) -> (r: MacAddr1) {
        MacAddr1 { bits }
    }

    fn to_bits(&self) -> (b: u8) {
        self.bits
    }
}

impl Default for MacAddr1 {
    fn default() -> (r: MacAddr1)
        ensures
            r@ == default_bits(Address::MacAddr1),
    {
        MacAddr1 { bits: 0x10 }
    }
}

impl From<u8> for MacAddr1 {
    fn from(bits: u8) -> (r: MacAddr1) {
        MacAddr1 { bits }
    }
}

impl vstd::std_specs::convert::FromSpecImpl<u8> for MacAddr1 {
    open spec fn obeys_from_spec() -> bool {
        true
    }

    open spec fn from_spec(bits: u8) -> MacAddr1 {
        <MacAddr1 as Register>::spec_from_bits(bits)
    }
}

impl From<MacAddr1> for u8 {
    fn from(r: MacAddr1) -> (bits: u8) {
        r.bits
    }
}

impl vstd::std_specs::convert::FromSpecImpl<MacAddr1> for u8 {
    open spec fn obeys_from_spec() -> bool {
        true
    }

    open spec fn from_spec(r: MacAddr1) -> u8 {
        r@
    }
}

impl From<MacAddr1> for State {
    fn from(r: MacAddr1) -> (s: State) {
        State::MacAddr1(r)
    }
}

impl vstd::std_specs::convert::FromSpecImpl<MacAddr1> for State {
    open spec fn obeys_from_spec() -> bool {
        true
    }

    open spec fn from_spec(r: MacAddr1) -> State {
        State::MacAddr1(r)
    }
}

impl core::convert::TryFrom<State> for MacAddr1 {
    type Error = InvalidAddress;

    fn try_from(s: State) -> (r: Result<MacAddr1, InvalidAddress>) {
        match s {
            State::MacAddr1(r) => Ok(r),
            _ => Err(InvalidAddress),
        }
    }
}

impl vstd::std_specs::convert::TryFromSpecImpl<State> for MacAddr1 {
    open spec fn obeys_try_from_spec() -> bool {
        true
    }

    open spec fn try_from_spec(s: State) -> Result<MacAddr1, InvalidAddress> {
        match s {
            State::MacAddr1(r) => Ok(r),
            _ => Err(InvalidAddress),
        }
    }
}

impl MacAddr1 {
    /// Provides read access to the individual fields of the register.
    pub fn read(&self) -> (r: R<MacAddr1>)
        ensures
            r.0 == *self,
    {
        R(*self)
    }

    /// Provides write access to the individual fields of the register.
    pub fn write(self) -> (w: W<MacAddr1>)
        ensures
            w.0 == self,
    {
        W(self)
    }
}

impl R<MacAddr1> {
    /// Read access to the `data` field.
    pub fn data(&self) -> (f: BitsR<u8>)
        ensures
            f.bits == load8(self.0@, 0xff, 0),
    {
        BitsR { bits: (self.0.bits & 0xff) >> 0u8 }
    }
}

impl W<MacAddr1> {
    /// Write access to the `data` field.
    pub fn data(self) -> (f: BitsW<MacAddr1>)
        ensures
            f.w == self,
            f.mask == 0xff,
            f.shift == 0,
    {
        BitsW { w: self, mask: 0xff, shift: 0 }
    }
}

/// The `MacAddr2` register, at address `0x72`.
#[derive(Clone, Copy, Debug, PartialEq, Eq, Structural, Hash)]
pub struct MacAddr2 {
    bits: u8,
}

impl View for MacAddr2 {
    type V = u8;

    closed spec fn view(&self) -> u8 {
        self.bits
    }
}

impl Register for MacAddr2 {
    open spec fn spec_address() -> Address {
        Address::MacAddr2
    }

    closed spec fn spec_from_bits(bits: u8) -> MacAddr2 {
        MacAddr2 { bits }
    }

    proof fn lemma_from_bits(bits: u8) {
    }

    fn address() -> (a: Address) {
        Address::MacAddr2
    }

    fn from_bits(bits: u8) -> (r: MacAddr2) {
        MacAddr2 { bits }
    }

    fn to_bits(&self) -> (b: u8) {
        self.bits
    }
}

impl Default for MacAddr2 {
    fn default() -> (r: MacAddr2)
        ensures
            r@ == default_bits(Address::MacAddr2),
    {
        MacAddr2 { bits: 0xa1 }
    }
}

impl From<u8> for MacAddr2 {
    fn from(bits: u8) -> (r: MacAddr2) {
        MacAddr2 { bits }
    }
}

impl vstd::std_specs::convert::FromSpecImpl<u8> for MacAddr2 {
    open spec fn obeys_from_spec() -> bool {
        true
    }

    open spec fn from_spec(bits: u8) -> MacAddr2 {
        <MacAddr2 as Register>::spec_from_bits(bits)
    }
}

impl From<MacAddr2> for u8 {
    fn from(r: MacAddr2) -> (bits: u8) {
        r.bits
    }
}

impl vstd::std_specs::convert::FromSpecImpl<MacAddr2> for u8 {
    open spec fn obeys_from_spec() -> bool {
        true
    }

    open spec fn from_spec(r: MacAddr2) -> u8 {
        r@
    }
}

impl From<MacAddr2> for State {
    fn from(r: MacAddr2) -> (s: State) {
        State::MacAddr2(r)
    }
}

impl vstd::std_specs::convert::FromSpecImpl<MacAddr2> for State {
    open spec fn obeys_from_spec() -> bool {
        true
    }

    open spec fn from_spec(r: MacAddr2) -> State {
        State::MacAddr2(r)
    }
}

impl core::convert::TryFrom<State> for MacAddr2 {
    type Error = InvalidAddress;

    fn try_from(s: State) -> (r: Result<MacAddr2, InvalidAddress>) {
        match s {
            State::MacAddr2(r) => Ok(r),
            _ => Err(InvalidAddress),
        }
    }
}

impl vstd::std_specs::convert::TryFromSpecImpl<State> for MacAddr2 {
    open spec fn obeys_try_from_spec() -> bool {
        true
    }

    open spec fn try_from_spec(s: State) -> Result<MacAddr2, InvalidAddress> {
        match s {
            State::MacAddr2(r) => Ok(r),
            _ => Err(InvalidAddress),
        }
    }
}

impl MacAddr2 {
    /// Provides read access to the individual fields of the register.
    pub fn read(&self) -> (r: R<MacAddr2>)
        ensures
            r.0 == *self,
    {
        R(*self)
    }

    /// Provides write access to the individual fields of the register.
    pub fn write(self) -> (w: W<MacAddr2>)
        ensures
            w.0 == self,
    {
        W(self)
    }
}

impl R<MacAddr2> {
    /// Read access to the `data` field.
    pub fn data(&self) -> (f: BitsR<u8>)
        ensures
            f.bits == load8(self.0@, 0xff, 0),
    {
        BitsR { bits: (self.0.bits & 0xff) >> 0u8 }
    }
}

impl W<MacAddr2> {
    /// Write access to the `data` field.
    pub fn data(self) -> (f: BitsW<MacAddr2>)
        ensures
            f.w == self,
            f.mask == 0xff,
            f.shift == 0,
    {
        BitsW { w: self, mask: 0xff, shift: 0 }
    }
}

/// The `MacAddr3` register, at address `0x73`.
#[derive(Clone, Copy, Debug, PartialEq, Eq, Structural, Hash)]
pub struct MacAddr3 {
    bits: u8,
}

impl View for MacAddr3 {
    type V = u8;

    closed spec fn view(&self) -> u8 {
        self.bits
    }
}

impl Register for MacAddr3 {
    open spec fn spec_address() -> Address {
        Address::MacAddr3
    }

    closed spec fn spec_from_bits(bits: u8) -> MacAddr3 {
        MacAddr3 { bits }
    }

    proof fn lemma_from_bits(bits: u8) {
    }

    fn address() -> (a: Address) {
        Address::MacAddr3
    }

    fn from_bits(bits: u8) -> (r: MacAddr3) {
        MacAddr3 { bits }
    }

    fn to_bits(&self) -> (b: u8) {
        self.bits
    }
}

impl Default for MacAddr3 {
    fn default() -> (r: MacAddr3)
        ensures
            r@ == default_bits(Address::MacAddr3),
    {
        MacAddr3 { bits: 0xff }
    }
}

impl From<u8> for MacAddr3 {
    fn from(bits: u8) -> (r: MacAddr3) {
        MacAddr3 { bits }
    }
}

impl vstd::std_specs::convert::FromSpecImpl<u8> for MacAddr3 {
    open spec fn obeys_from_spec() -> bool {
        true
    }

    open spec fn from_spec(bits: u8) -> MacAddr3 {
        <MacAddr3 as Register>::spec_from_bits(bits)
    }
}

impl From<MacAddr3> for u8 {
    fn from(r: MacAddr3) -> (bits: u8) {
        r.bits
    }
}

impl vstd::std_specs::convert::FromSpecImpl<MacAddr3> for u8 {
    open spec fn obeys_from_spec() -> bool {
        true
    }

    open spec fn from_spec(r: MacAddr3) -> u8 {
        r@
    }
}

impl From<MacAddr3> for State {
    fn from(r: MacAddr3) -> (s: State) {
        State::MacAddr3(r)
    }
}

impl vstd::std_specs::convert::FromSpecImpl<MacAddr3> for State {
    open spec fn obeys_from_spec() -> bool {
        true
    }

    open spec fn from_spec(r: MacAddr3) -> State {
        State::MacAddr3(r)
    }
}

impl core::convert::TryFrom<State> for MacAddr3 {
    type Error = InvalidAddress;

    fn try_from(s: State) -> (r: Result<MacAddr3, InvalidAddress>) {
        match s {
            State::MacAddr3(r) => Ok(r),
            _ => Err(InvalidAddress),
        }
    }
}

impl vstd::std_specs::convert::TryFromSpecImpl<State> for MacAddr3 {
    open spec fn obeys_try_from_spec() -> bool {
        true
    }

    open spec fn try_from_spec(s: State) -> Result<MacAddr3, InvalidAddress> {
        match s {
            State::MacAddr3(r) => Ok(r),
            _ => Err(InvalidAddress),
        }
    }
}

impl MacAddr3 {
    /// Provides read access to the individual fields of the register.
    pub fn read(&self) -> (r: R<MacAddr3>)
        ensures
            r.0 == *self,
    {
        R(*self)
    }

    /// Provides write access to the individual fields of the register.
    pub fn write(self) -> (w: W<MacAddr3>)
        ensures
            w.0 == self,
    {
        W(self)
    }
}

impl R<MacAddr3> {
    /// Read access to the `data` field.
    pub fn data(&self) -> (f: BitsR<u8>)
        ensures
            f.bits == load8(self.0@, 0xff, 0),
    {
        BitsR { bits: (self.0.bits & 0xff) >> 0u8 }
    }
}

impl W<MacAddr3> {
    /// Write access to the `data` field.
    pub fn data(self) -> (f: BitsW<MacAddr3>)
        ensures
            f.w == self,
            f.mask == 0xff,
            f.shift == 0,
    {
        BitsW { w: self, mask: 0xff, shift: 0 }
    }
}

/// The `MacAddr4` register, at address `0x74`.
#[derive(Clone, Copy, Debug, PartialEq, Eq, Structural, Hash)]
pub struct MacAddr4 {
    bits: u8,
}

impl View for MacAddr4 {
    type V = u8;

    closed spec fn view(&self) -> u8 {
        self.bits
    }
}

impl Register for MacAddr4 {
    open spec fn spec_address() -> Address {
        Address::MacAddr4
    }

    closed spec fn spec_from_bits(bits: u8) -> MacAddr4 {
        MacAddr4 { bits }
    }

    proof fn lemma_from_bits(bits: u8) {
    }

    fn address() -> (a: Address) {
        Address::MacAddr4
    }

    fn from_bits(bits: u8) -> (r: MacAddr4) {
        MacAddr4 { bits }
    }

    fn to_bits(&self) -> (b: u8) {
        self.bits
    }
}

impl Default for MacAddr4 {
    fn default() -> (r: MacAddr4)
        ensures
            r@ == default_bits(Address::MacAddr4),
    {
        MacAddr4 { bits: 0xff }
    }
}

impl From<u8> for MacAddr4 {
    fn from(bits: u8) -> (r: MacAddr4) {
        MacAddr4 { bits }
    }
}

impl vstd::std_specs::convert::FromSpecImpl<u8> for MacAddr4 {
    open spec fn obeys_from_spec() -> bool {
        true
    }

    open spec fn from_spec(bits: u8) -> MacAddr4 {
        <MacAddr4 as Register>::spec_from_bits(bits)
    }
}

impl From<MacAddr4> for u8 {
    fn from(r: MacAddr4) -> (bits: u8) {
        r.bits
    }
}

impl vstd::std_specs::convert::FromSpecImpl<MacAddr4> for u8 {
    open spec fn obeys_from_spec() -> bool {
        true
    }

    open spec fn from_spec(r: MacAddr4) -> u8 {
        r@
    }
}

impl From<MacAddr4> for State {
    fn from(r: MacAddr4) -> (s: State) {
        State::MacAddr4(r)
    }
}

impl vstd::std_specs::convert::FromSpecImpl<MacAddr4> for State {
    open spec fn obeys_from_spec() -> bool {
        true
    }

    open spec fn from_spec(r: MacAddr4) -> State {
        State::MacAddr4(r)
    }
}

impl core::convert::TryFrom<State> for MacAddr4 {
    type Error = InvalidAddress;

    fn try_from(s: State) -> (r: Result<MacAddr4, InvalidAddress>) {
        match s {
            State::MacAddr4(r) => Ok(r),
            _ => Err(InvalidAddress),
        }
    }
}

impl vstd::std_specs::convert::TryFromSpecImpl<State> for MacAddr4 {
    open spec fn obeys_try_from_spec() -> bool {
        true
    }

    open spec fn try_from_spec(s: State) -> Result<MacAddr4, InvalidAddress> {
        match s {
            State::MacAddr4(r) => Ok(r),
            _ => Err(InvalidAddress),
        }
    }
}

impl MacAddr4 {
    /// Provides read access to the individual fields of the register.
    pub fn read(&self) -> (r: R<MacAddr4>)
        ensures
            r.0 == *self,
    {
        R(*self)
    }

    /// Provides write access to the individual fields of the register.
    pub fn write(self) -> (w: W<MacAddr4>)
        ensures
            w.0 == self,
    {
        W(self)
    }
}

impl R<MacAddr4> {
    /// Read access to the `data` field.
    pub fn data(&self) -> (f: BitsR<u8>)
        ensures
            f.bits == load8(self.0@, 0xff, 0),
    {
        BitsR { bits: (self.0.bits & 0xff) >> 0u8 }
    }
}

impl W<MacAddr4> {
    /// Write access to the `data` field.
    pub fn data(self) -> (f: BitsW<MacAddr4>)
        ensures
            f.w == self,
            f.mask == 0xff,
            f.shift == 0,
    {
        BitsW { w: self, mask: 0xff, shift: 0 }
    }
}

/// The `MacAddr5` register, at address `0x75`.
#[derive(Clone, Copy, Debug, PartialEq, Eq, Structural, Hash)]
pub struct MacAddr5 {
    bits: u8,
}

impl View for MacAddr5 {
    type V = u8;

    closed spec fn view(&self) -> u8 {
        self.bits
    }
}

impl Register for MacAddr5 {
    open spec fn spec_address() -> Address {
        Address::MacAddr5
    }

    closed spec fn spec_from_bits(bits: u8) -> MacAddr5 {
        MacAddr5 { bits }
    }

    proof fn lemma_from_bits(bits: u8) {
    }

    fn address() -> (a: Address) {
        Address::MacAddr5
    }

    fn from_bits(bits: u8) -> (r: MacAddr5) {
        MacAddr5 { bits }
    }

    fn to_bits(&self) -> (b: u8) {
        self.bits
    }
}

impl Default for MacAddr5 {
    fn default() -> (r: MacAddr5)
        ensures
            r@ == default_bits(Address::MacAddr5),
    {
        MacAddr5 { bits: 0xff }
    }
}

impl From<u8> for MacAddr5 {
    fn from(bits: u8) -> (r: MacAddr5) {
        MacAddr5 { bits }
    }
}

impl vstd::std_specs::convert::FromSpecImpl<u8> for MacAddr5 {
    open spec fn obeys_from_spec() -> bool {
        true
    }

    open spec fn from_spec(bits: u8) -> MacAddr5 {
        <MacAddr5 as Register>::spec_from_bits(bits)
    }
}

impl From<MacAddr5> for u8 {
    fn from(r: MacAddr5) -> (bits: u8) {
        r.bits
    }
}

impl vstd::std_specs::convert::FromSpecImpl<MacAddr5> for u8 {
    open spec fn obeys_from_spec() -> bool {
        true
    }

    open spec fn from_spec(r: MacAddr5) -> u8 {
        r@
    }
}

impl From<MacAddr5> for State {
    fn from(r: MacAddr5) -> (s: State) {
        State::MacAddr5(r)
    }
}

impl vstd::std_specs::convert::FromSpecImpl<MacAddr5> for State {
    open spec fn obeys_from_spec() -> bool {
        true
    }

    open spec fn from_spec(r: MacAddr5) -> State {
        State::MacAddr5(r)
    }
}

impl core::convert::TryFrom<State> for MacAddr5 {
    type Error = InvalidAddress;

    fn try_from(s: State) -> (r: Result<MacAddr5, InvalidAddress>) {
        match s {
            State::MacAddr5(r) => Ok(r),
            _ => Err(InvalidAddress),
        }
    }
}

impl vstd::std_specs::convert::TryFromSpecImpl<State> for MacAddr5 {
    open spec fn obeys_try_from_spec() -> bool {
        true
    }

    open spec fn try_from_spec(s: State) -> Result<MacAddr5, InvalidAddress> {
        match s {
            State::MacAddr5(r) => Ok(r),
            _ => Err(InvalidAddress),
        }
    }
}

impl MacAddr5 {
    /// Provides read access to the individual fields of the register.
    pub fn read(&self) -> (r: R<MacAddr5>)
        ensures
            r.0 == *self,
    {
        R(*self)
    }

    /// Provides write access to the individual fields of the register.
    pub fn write(self) -> (w: W<MacAddr5>)
        ensures
            w.0 == self,
    {
        W(self)
    }
}

impl R<MacAddr5> {
    /// Read access to the `data` field.
    pub fn data(&self) -> (f: BitsR<u8>)
        ensures
            f.bits == load8(self.0@, 0xff, 0),
    {
        BitsR { bits: (self.0.bits & 0xff) >> 0u8 }
    }
}

impl W<MacAddr5> {
    /// Write access to the `data` field.
    pub fn data(self) -> (f: BitsW<MacAddr5>)
        ensures
            f.w == self,
            f.mask == 0xff,
            f.shift == 0,
    {
        BitsW { w: self, mask: 0xff, shift: 0 }
    }
}

/// The `UserDef1` register, at address `0x76`.
#[derive(Clone, Copy, Debug, PartialEq, Eq, Structural, Hash)]
pub struct UserDef1 {
    bits: u8,
}

impl View for UserDef1 {
    type V = u8;

    closed spec fn view(&self) -> u8 {
        self.bits
    }
}

impl Register for UserDef1 {
    open spec fn spec_address() -> Address {
        Address::UserDef1
    }

    closed spec fn spec_from_bits(bits: u8) -> UserDef1 {
        UserDef1 { bits }
    }

    proof fn lemma_from_bits(bits: u8) {
    }

    fn address() -> (a: Address) {
        Address::UserDef1
    }

    fn from_bits(bits: u8) -> (r: UserDef1) {
        UserDef1 { bits }
    }

    fn to_bits(&self) -> (b: u8) {
        self.bits
    }
}

impl Default for UserDef1 {
    fn default() -> (r: UserDef1)
        ensures
            r@ == default_bits(Address::UserDef1),
    {
        UserDef1 { bits: 0x00 }
    }
}

impl From<u8> for UserDef1 {
    fn from(bits: u8) -> (r: UserDef1) {
        UserDef1 { bits }
    }
}

impl vstd::std_specs::convert::FromSpecImpl<u8> for UserDef1 {
    open spec fn obeys_from_spec() -> bool {
        true
    }

    open spec fn from_spec(bits: u8) -> UserDef1 {
        <UserDef1 as Register>::spec_from_bits(bits)
    }
}

impl From<UserDef1> for u8 {
    fn from(r: UserDef1) -> (bits: u8) {
        r.bits
    }
}

impl vstd::std_specs::convert::FromSpecImpl<UserDef1> for u8 {
    open spec fn obeys_from_spec() -> bool {
        true
    }

    open spec fn from_spec(r: UserDef1) -> u8 {
        r@
    }
}

impl From<UserDef1> for State {
    fn from(r: UserDef1) -> (s: State) {
        State::UserDef1(r)
    }
}

impl vstd::std_specs::convert::FromSpecImpl<UserDef1> for State {
    open spec fn obeys_from_spec() -> bool {
        true
    }

    open spec fn from_spec(r: UserDef1) -> State {
        State::UserDef1(r)
    }
}

impl core::convert::TryFrom<State> for UserDef1 {
    type Error = InvalidAddress;

    fn try_from(s: State) -> (r: Result<UserDef1, InvalidAddress>) {
        match s {
            State::UserDef1(r) => Ok(r),
            _ => Err(InvalidAddress),
        }
    }
}

impl vstd::std_specs::convert::TryFromSpecImpl<State> for UserDef1 {
    open spec fn obeys_try_from_spec() -> bool {
        true
    }

    open spec fn try_from_spec(s: State) -> Result<UserDef1, InvalidAddress> {
        match s {
            State::UserDef1(r) => Ok(r),
            _ => Err(InvalidAddress),
        }
    }
}

impl UserDef1 {
    /// Provides read access to the individual fields of the register.
    pub fn read(&self) -> (r: R<UserDef1>)
        ensures
            r.0 == *self,
    {
        R(*self)
    }

    /// Provides write access to the individual fields of the register.
    pub fn write(self) -> (w: W<UserDef1>)
        ensures
            w.0 == self,
    {
        W(self)
    }
}

impl R<UserDef1> {
    /// Read access to the `data` field.
    pub fn data(&self) -> (f: BitsR<u8>)
        ensures
            f.bits == load8(self.0@, 0xff, 0),
    {
        BitsR { bits: (self.0.bits & 0xff) >> 0u8 }
    }
}

impl W<UserDef1> {
    /// Write access to the `data` field.
    pub fn data(self) -> (f: BitsW<UserDef1>)
        ensures
            f.w == self,
            f.mask == 0xff,
            f.shift == 0,
    {
        BitsW { w: self, mask: 0xff, shift: 0 }
    }
}

/// The `UserDef2` register, at address `0x77`.
#[derive(Clone, Copy, Debug, PartialEq, Eq, Structural, Hash)]
pub struct UserDef2 {
    bits: u8,
}

impl View for UserDef2 {
    type V = u8;

    closed spec fn view(&self) -> u8 {
        self.bits
    }
}

impl Register for UserDef2 {
    open spec fn spec_address() -> Address {
        Address::UserDef2
    }

    closed spec fn spec_from_bits(bits: u8) -> UserDef2 {
        UserDef2 { bits }
    }

    proof fn lemma_from_bits(bits: u8) {
    }

    fn address() -> (a: Address) {
        Address::UserDef2
    }

    fn from_bits(bits: u8) -> (r: UserDef2) {
        UserDef2 { bits }
    }

    fn to_bits(&self) -> (b: u8) {
        self.bits
    }
}

impl Default for UserDef2 {
    fn default() -> (r: UserDef2)
        ensures
            r@ == default_bits(Address::UserDef2),
    {
        UserDef2 { bits: 0x00 }
    }
}

impl From<u8> for UserDef2 {
    fn from(bits: u8) -> (r: UserDef2) {
        UserDef2 { bits }
    }
}

impl vstd::std_specs::convert::FromSpecImpl<u8> for UserDef2 {
    open spec fn obeys_from_spec() -> bool {
        true
    }

    open spec fn from_spec(bits: u8) -> UserDef2 {
        <UserDef2 as Register>::spec_from_bits(bits)
    }
}

impl From<UserDef2> for u8 {
    fn from(r: UserDef2) -> (bits: u8) {
        r.bits
    }
}

impl vstd::std_specs::convert::FromSpecImpl<UserDef2> for u8 {
    open spec fn obeys_from_spec() -> bool {
        true
    }

    open spec fn from_spec(r: UserDef2) -> u8 {
        r@
    }
}

impl From<UserDef2> for State {
    fn from(r: UserDef2) -> (s: State) {
        State::UserDef2(r)
    }
}

impl vstd::std_specs::convert::FromSpecImpl<UserDef2> for State {
    open spec fn obeys_from_spec() -> bool {
        true
    }

    open spec fn from_spec(r: UserDef2) -> State {
        State::UserDef2(r)
    }
}

impl core::convert::TryFrom<State> for UserDef2 {
    type Error = InvalidAddress;

    fn try_from(s: State) -> (r: Result<UserDef2, InvalidAddress>) {
        match s {
            State::UserDef2(r) => Ok(r),
            _ => Err(InvalidAddress),
        }
    }
}

impl vstd::std_specs::convert::TryFromSpecImpl<State> for UserDef2 {
    open spec fn obeys_try_from_spec() -> bool {
        true
    }

    open spec fn try_from_spec(s: State) -> Result<UserDef2, InvalidAddress> {
        match s {
            State::UserDef2(r) => Ok(r),
            _ => Err(InvalidAddress),
        }
    }
}

impl UserDef2 {
    /// Provides read access to the individual fields of the register.
    pub fn read(&self) -> (r: R<UserDef2>)
        ensures
            r.0 == *self,
    {
        R(*self)
    }

    /// Provides write access to the individual fields of the register.
    pub fn write(self) -> (w: W<UserDef2>)
        ensures
            w.0 == self,
    {
        W(self)
    }
}

impl R<UserDef2> {
    /// Read access to the `data` field.
    pub fn data(&self) -> (f: BitsR<u8>)
        ensures
            f.bits == load8(self.0@, 0xff, 0),
    {
        BitsR { bits: (self.0.bits & 0xff) >> 0u8 }
    }
}

impl W<UserDef2> {
    /// Write access to the `data` field.
    pub fn data(self) -> (f: BitsW<UserDef2>)
        ensures
            f.w == self,
            f.mask == 0xff,
            f.shift == 0,
    {
        BitsW { w: self, mask: 0xff, shift: 0 }
    }
}

/// The `UserDef3` register, at address `0x78`.
#[derive(Clone, Copy, Debug, PartialEq, Eq, Structural, Hash)]
pub struct UserDef3 {
    bits: u8,
}

impl View for UserDef3 {
    type V = u8;

    closed spec fn view(&self) -> u8 {
        self.bits
    }
}

impl Register for UserDef3 {
    open spec fn spec_address() -> Address {
        Address::UserDef3
    }

    closed spec fn spec_from_bits(bits: u8) -> UserDef3 {
        UserDef3 { bits }
    }

    proof fn lemma_from_bits(bits: u8) {
    }

    fn address() -> (a: Address) {
        Address::UserDef3
    }

    fn from_bits(bits: u8) -> (r: UserDef3) {
        UserDef3 { bits }
    }

    fn to_bits(&self) -> (b: u8) {
        self.bits
    }
}

impl Default for UserDef3 {
    fn default() -> (r: UserDef3)
        ensures
            r@ == default_bits(Address::UserDef3),
    {
        UserDef3 { bits: 0x00 }
    }
}

impl From<u8> for UserDef3 {
    fn from(bits: u8) -> (r: UserDef3) {
        UserDef3 { bits }
    }
}

impl vstd::std_specs::convert::FromSpecImpl<u8> for UserDef3 {
    open spec fn obeys_from_spec() -> bool {
        true
    }

    open spec fn from_spec(bits: u8) -> UserDef3 {
        <UserDef3 as Register>::spec_from_bits(bits)
    }
}

impl From<UserDef3> for u8 {
    fn from(r: UserDef3) -> (bits: u8) {
        r.bits
    }
}

impl vstd::std_specs::convert::FromSpecImpl<UserDef3> for u8 {
    open spec fn obeys_from_spec() -> bool {
        true
    }

    open spec fn from_spec(r: UserDef3) -> u8 {
        r@
    }
}

impl From<UserDef3> for State {
    fn from(r: UserDef3) -> (s: State) {
        State::UserDef3(r)
    }
}

impl vstd::std_specs::convert::FromSpecImpl<UserDef3> for State {
    open spec fn obeys_from_spec() -> bool {
        true
    }

    open spec fn from_spec(r: UserDef3) -> State {
        State::UserDef3(r)
    }
}

impl core::convert::TryFrom<State> for UserDef3 {
    type Error = InvalidAddress;

    fn try_from(s: State) -> (r: Result<UserDef3, InvalidAddress>) {
        match s {
            State::UserDef3(r) => Ok(r),
            _ => Err(InvalidAddress),
        }
    }
}

impl vstd::std_specs::convert::TryFromSpecImpl<State> for UserDef3 {
    open spec fn obeys_try_from_spec() -> bool {
        true
    }

    open spec fn try_from_spec(s: State) -> Result<UserDef3, InvalidAddress> {
        match s {
            State::UserDef3(r) => Ok(r),
            _ => Err(InvalidAddress),
        }
    }
}

impl UserDef3 {
    /// Provides read access to the individual fields of the register.
    pub fn read(&self) -> (r: R<UserDef3>)
        ensures
            r.0 == *self,
    {
        R(*self)
    }

    /// Provides write access to the individual fields of the register.
    pub fn write(self) -> (w: W<UserDef3>)
        ensures
            w.0 == self,
    {
        W(self)
    }
}

impl R<UserDef3> {
    /// Read access to the `data` field.
    pub fn data(&self) -> (f: BitsR<u8>)
        ensures
            f.bits == load8(self.0@, 0xff, 0),
    {
        BitsR { bits: (self.0.bits & 0xff) >> 0u8 }
    }
}

impl W<UserDef3> {
    /// Write access to the `data` field.
    pub fn data(self) -> (f: BitsW<UserDef3>)
        ensures
            f.w == self,
            f.mask == 0xff,
            f.shift == 0,
    {
        BitsW { w: self, mask: 0xff, shift: 0 }
    }
}

/// The `IndirectAccessCtrl0` register, at address `0x79`.
#[derive(Clone, Copy, Debug, PartialEq, Eq, Structural, Hash)]
pub struct IndirectAccessCtrl0 {
    bits: u8,
}

impl View for IndirectAccessCtrl0 {
    type V = u8;

    closed spec fn view(&self) -> u8 {
        self.bits
    }
}

impl Register for IndirectAccessCtrl0 {
    open spec fn spec_address() -> Address {
        Address::IndirectAccessCtrl0
    }

    closed spec fn spec_from_bits(bits: u8) -> IndirectAccessCtrl0 {
        IndirectAccessCtrl0 { bits }
    }

    proof fn lemma_from_bits(bits: u8) {
    }

    fn address() -> (a: Address) {
        Address::IndirectAccessCtrl0
    }

    fn from_bits(bits: u8) -> (r: IndirectAccessCtrl0) {
        IndirectAccessCtrl0 { bits }
    }

    fn to_bits(&self) -> (b: u8) {
        self.bits
    }
}

impl Default for IndirectAccessCtrl0 {
    fn default() -> (r: IndirectAccessCtrl0)
        ensures
            r@ == default_bits(Address::IndirectAccessCtrl0),
    {
        IndirectAccessCtrl0 { bits: 0x00 }
    }
}

impl From<u8> for IndirectAccessCtrl0 {
    fn from(bits: u8) -> (r: IndirectAccessCtrl0) {
        IndirectAccessCtrl0 { bits }
    }
}

impl vstd::std_specs::convert::FromSpecImpl<u8> for IndirectAccessCtrl0 {
    open spec fn obeys_from_spec() -> bool {
        true
    }

    open spec fn from_spec(bits: u8) -> IndirectAccessCtrl0 {
        <IndirectAccessCtrl0 as Register>::spec_from_bits(bits)
    }
}

impl From<IndirectAccessCtrl0> for u8 {
    fn from(r: IndirectAccessCtrl0) -> (bits: u8) {
        r.bits
    }
}

impl vstd::std_specs::convert::FromSpecImpl<IndirectAccessCtrl0> for u8 {
    open spec fn obeys_from_spec() -> bool {
        true
    }

    open spec fn from_spec(r: IndirectAccessCtrl0) -> u8 {
        r@
    }
}

impl From<IndirectAccessCtrl0> for State {
    fn from(r: IndirectAccessCtrl0) -> (s: State) {
        State::IndirectAccessCtrl0(r)
    }
}

impl vstd::std_specs::convert::FromSpecImpl<IndirectAccessCtrl0> for State {
    open spec fn obeys_from_spec() -> bool {
        true
    }

    open spec fn from_spec(r: IndirectAccessCtrl0) -> State {
        State::IndirectAccessCtrl0(r)
    }
}

impl core::convert::TryFrom<State> for IndirectAccessCtrl0 {
    type Error = InvalidAddress;

    fn try_from(s: State) -> (r: Result<IndirectAccessCtrl0, InvalidAddress>) {
        match s {
            State::IndirectAccessCtrl0(r) => Ok(r),
            _ => Err(InvalidAddress),
        }
    }
}

impl vstd::std_specs::convert::TryFromSpecImpl<State> for IndirectAccessCtrl0 {
    open spec fn obeys_try_from_spec() -> bool {
        true
    }

    open spec fn try_from_spec(s: State) -> Result<IndirectAccessCtrl0, InvalidAddress> {
        match s {
            State::IndirectAccessCtrl0(r) => Ok(r),
            _ => Err(InvalidAddress),
        }
    }
}

impl IndirectAccessCtrl0 {
    /// Provides read access to the individual fields of the register.
    pub fn read(&self) -> (r: R<IndirectAccessCtrl0>)
        ensures
            r.0 == *self,
    {
        R(*self)
    }

    /// Provides write access to the individual fields of the register.
    pub fn write(self) -> (w: W<IndirectAccessCtrl0>)
        ensures
            w.0 == self,
    {
        W(self)
    }
}

impl R<IndirectAccessCtrl0> {
    /// Read access to the `read_high_write_low` field.
    pub fn read_high_write_low(&self) -> (f: BitR)
        ensures
            f.bit == (self.0@ & 0x10 != 0),
    {
        BitR { bit: self.0.bits & 0x10 != 0 }
    }

    /// Read access to the `table_select` field.
    pub fn table_select(&self) -> (f: BitsR<u8>)
        ensures
            f.bits == load8(self.0@, 0x0c, 2),
    {
        BitsR { bits: (self.0.bits & 0x0c) >> 2u8 }
    }

    /// Read access to the `indirect_addr_high` field.
    pub fn indirect_addr_high(&self) -> (f: BitsR<u8>)
        ensures
            f.bits == load8(self.0@, 0x03, 0),
    {
        BitsR { bits: (self.0.bits & 0x03) >> 0u8 }
    }
}

impl W<IndirectAccessCtrl0> {
    /// Write access to the `read_high_write_low` field.
    pub fn read_high_write_low(self) -> (f: BitW<IndirectAccessCtrl0>)
        ensures
            f.w == self,
            f.mask == 0x10,
    {
        BitW { w: self, mask: 0x10 }
    }

    /// Write access to the `table_select` field.
    pub fn table_select(self) -> (f: BitsW<IndirectAccessCtrl0>)
        ensures
            f.w == self,
            f.mask == 0x0c,
            f.shift == 2,
    {
        BitsW { w: self, mask: 0x0c, shift: 2 }
    }

    /// Write access to the `indirect_addr_high` field.
    pub fn indirect_addr_high(self) -> (f: BitsW<IndirectAccessCtrl0>)
        ensures
            f.w == self,
            f.mask == 0x03,
            f.shift == 0,
    {
        BitsW { w: self, mask: 0x03, shift: 0 }
    }
}

/// The `IndirectAccessCtrl1` register, at address `0x7a`.
#[derive(Clone, Copy, Debug, PartialEq, Eq, Structural, Hash)]
pub struct IndirectAccessCtrl1 {
    bits: u8,
}

impl View for IndirectAccessCtrl1 {
    type V = u8;

    closed spec fn view(&self) -> u8 {
        self.bits
    }
}

impl Register for IndirectAccessCtrl1 {
    open spec fn spec_address() -> Address {
        Address::IndirectAccessCtrl1
    }

    closed spec fn spec_from_bits(bits: u8) -> IndirectAccessCtrl1 {
        IndirectAccessCtrl1 { bits }
    }

    proof fn lemma_from_bits(bits: u8) {
    }

    fn address() -> (a: Address) {
        Address::IndirectAccessCtrl1
    }

    fn from_bits(bits: u8) -> (r: IndirectAccessCtrl1) {
        IndirectAccessCtrl1 { bits }
    }

    fn to_bits(&self) -> (b: u8) {
        self.bits
    }
}

impl Default for IndirectAccessCtrl1 {
    fn default() -> (r: IndirectAccessCtrl1)
        ensures
            r@ == default_bits(Address::IndirectAccessCtrl1),
    {
        IndirectAccessCtrl1 { bits: 0x00 }
    }
}

impl From<u8> for IndirectAccessCtrl1 {
    fn from(bits: u8) -> (r: IndirectAccessCtrl1) {
        IndirectAccessCtrl1 { bits }
    }
}

impl vstd::std_specs::convert::FromSpecImpl<u8> for IndirectAccessCtrl1 {
    open spec fn obeys_from_spec() -> bool {
        true
    }

    open spec fn from_spec(bits: u8) -> IndirectAccessCtrl1 {
        <IndirectAccessCtrl1 as Register>::spec_from_bits(bits)
    }
}

impl From<IndirectAccessCtrl1> for u8 {
    fn from(r: IndirectAccessCtrl1) -> (bits: u8) {
        r.bits
    }
}

impl vstd::std_specs::convert::FromSpecImpl<IndirectAccessCtrl1> for u8 {
    open spec fn obeys_from_spec() -> bool {
        true
    }

    open spec fn from_spec(r: IndirectAccessCtrl1) -> u8 {
        r@
    }
}

impl From<IndirectAccessCtrl1> for State {
    fn from(r: IndirectAccessCtrl1) -> (s: State) {
        State::IndirectAccessCtrl1(r)
    }
}

impl vstd::std_specs::convert::FromSpecImpl<IndirectAccessCtrl1> for State {
    open spec fn obeys_from_spec() -> bool {
        true
    }

    open spec fn from_spec(r: IndirectAccessCtrl1) -> State {
        State::IndirectAccessCtrl1(r)
    }
}

impl core::convert::TryFrom<State> for IndirectAccessCtrl1 {
    type Error = InvalidAddress;

    fn try_from(s: State) -> (r: Result<IndirectAccessCtrl1, InvalidAddress>) {
        match s {
            State::IndirectAccessCtrl1(r) => Ok(r),
            _ => Err(InvalidAddress),
        }
    }
}

impl vstd::std_specs::convert::TryFromSpecImpl<State> for IndirectAccessCtrl1 {
    open spec fn obeys_try_from_spec() -> bool {
        true
    }

    open spec fn try_from_spec(s: State) -> Result<IndirectAccessCtrl1, InvalidAddress> {
        match s {
            State::IndirectAccessCtrl1(r) => Ok(r),
            _ => Err(InvalidAddress),
        }
    }
}

impl IndirectAccessCtrl1 {
    /// Provides read access to the individual fields of the register.
    pub fn read(&self) -> (r: R<IndirectAccessCtrl1>)
        ensures
            r.0 == *self,
    {
        R(*self)
    }

    /// Provides write access to the individual fields of the register.
    pub fn write(self) -> (w: W<IndirectAccessCtrl1>)
        ensures
            w.0 == self,
    {
        W(self)
    }
}

impl R<IndirectAccessCtrl1> {
    /// Read access to the `indirect_addr_low` field.
    pub fn indirect_addr_low(&self) -> (f: BitsR<u8>)
        ensures
            f.bits == load8(self.0@, 0xff, 0),
    {
        BitsR { bits: (self.0.bits & 0xff) >> 0u8 }
    }
}

impl W<IndirectAccessCtrl1> {
    /// Write access to the `indirect_addr_low` field.
    pub fn indirect_addr_low(self) -> (f: BitsW<IndirectAccessCtrl1>)
        ensures
            f.w == self,
            f.mask == 0xff,
            f.shift == 0,
    {
        BitsW { w: self, mask: 0xff, shift: 0 }
    }
}

/// The `IndirectData8` register, at address `0x7b`.
#[derive(Clone, Copy, Debug, PartialEq, Eq, Structural, Hash)]
pub struct IndirectData8 {
    bits: u8,
}

impl View for IndirectData8 {
    type V = u8;

    closed spec fn view(&self) -> u8 {
        self.bits
    }
}

impl Register for IndirectData8 {
    open spec fn spec_address() -> Address {
        Address::IndirectData8
    }

    closed spec fn spec_from_bits(bits: u8) -> IndirectData8 {
        IndirectData8 { bits }
    }

    proof fn lemma_from_bits(bits: u8) {
    }

    fn address() -> (a: Address) {
        Address::IndirectData8
    }

    fn from_bits(bits: u8) -> (r: IndirectData8) {
        IndirectData8 { bits }
    }

    fn to_bits(&self) -> (b: u8) {
        self.bits
    }
}

impl Default for IndirectData8 {
    fn default() -> (r: IndirectData8)
        ensures
            r@ == default_bits(Address::IndirectData8),
    {
        IndirectData8 { bits: 0x00 }
    }
}

impl From<u8> for IndirectData8 {
    fn from(bits: u8) -> (r: IndirectData8) {
        IndirectData8 { bits }
    }
}

impl vstd::std_specs::convert::FromSpecImpl<u8> for IndirectData8 {
    open spec fn obeys_from_spec() -> bool {
        true
    }

    open spec fn from_spec(bits: u8) -> IndirectData8 {
        <IndirectData8 as Register>::spec_from_bits(bits)
    }
}

impl From<IndirectData8> for u8 {
    fn from(r: IndirectData8) -> (bits: u8) {
        r.bits
    }
}

impl vstd::std_specs::convert::FromSpecImpl<IndirectData8> for u8 {
    open spec fn obeys_from_spec() -> bool {
        true
    }

    open spec fn from_spec(r: IndirectData8) -> u8 {
        r@
    }
}

impl From<IndirectData8> for State {
    fn from(r: IndirectData8) -> (s: State) {
        State::IndirectData8(r)
    }
}

impl vstd::std_specs::convert::FromSpecImpl<IndirectData8> for State {
    open spec fn obeys_from_spec() -> bool {
        true
    }

    open spec fn from_spec(r: IndirectData8) -> State {
        State::IndirectData8(r)
    }
}

impl core::convert::TryFrom<State> for IndirectData8 {
    type Error = InvalidAddress;

    fn try_from(s: State) -> (r: Result<IndirectData8, InvalidAddress>) {
        match s {
            State::IndirectData8(r) => Ok(r),
            _ => Err(InvalidAddress),
        }
    }
}

impl vstd::std_specs::convert::TryFromSpecImpl<State> for IndirectData8 {
    open spec fn obeys_try_from_spec() -> bool {
        true
    }

    open spec fn try_from_spec(s: State) -> Result<IndirectData8, InvalidAddress> {
        match s {
            State::IndirectData8(r) => Ok(r),
            _ => Err(InvalidAddress),
        }
    }
}

impl IndirectData8 {
    /// Provides read access to the individual fields of the register.
    pub fn read(&self) -> (r: R<IndirectData8>)
        ensures
            r.0 == *self,
    {
        R(*self)
    }

    /// Provides write access to the individual fields of the register.
    pub fn write(self) -> (w: W<IndirectData8>)
        ensures
            w.0 == self,
    {
        W(self)
    }
}

impl R<IndirectData8> {
    /// Read access to the `cpu_read_status` field.
    pub fn cpu_read_status(&self) -> (f: BitR)
        ensures
            f.bit == (self.0@ & 0x80 != 0),
    {
        BitR { bit: self.0.bits & 0x80 != 0 }
    }

    /// Read access to the `data` field.
    pub fn data(&self) -> (f: BitsR<u8>)
        ensures
            f.bits == load8(self.0@, 0x07, 0),
    {
        BitsR { bits: (self.0.bits & 0x07) >> 0u8 }
    }
}

impl W<IndirectData8> {
    /// Write access to the `data` field.
    pub fn data(self) -> (f: BitsW<IndirectData8>)
        ensures
            f.w == self,
            f.mask == 0x07,
            f.shift == 0,
    {
        BitsW { w: self, mask: 0x07, shift: 0 }
    }
}

/// The `IndirectData7` register, at address `0x7c`.
#[derive(Clone, Copy, Debug, PartialEq, Eq, Structural, Hash)]
pub struct IndirectData7 {
    bits: u8,
}

impl View for IndirectData7 {
    type V = u8;

    closed spec fn view(&self) -> u8 {
        self.bits
    }
}

impl Register for IndirectData7 {
    open spec fn spec_address() -> Address {
        Address::IndirectData7
    }

    closed spec fn spec_from_bits(bits: u8) -> IndirectData7 {
        IndirectData7 { bits }
    }

    proof fn lemma_from_bits(bits: u8) {
    }

    fn address() -> (a: Address) {
        Address::IndirectData7
    }

    fn from_bits(bits: u8) -> (r: IndirectData7) {
        IndirectData7 { bits }
    }

    fn to_bits(&self) -> (b: u8) {
        self.bits
    }
}

impl Default for IndirectData7 {
    fn default() -> (r: IndirectData7)
        ensures
            r@ == default_bits(Address::IndirectData7),
    {
        IndirectData7 { bits: 0x00 }
    }
}

impl From<u8> for IndirectData7 {
    fn from(bits: u8) -> (r: IndirectData7) {
        IndirectData7 { bits }
    }
}

impl vstd::std_specs::convert::FromSpecImpl<u8> for IndirectData7 {
    open spec fn obeys_from_spec() -> bool {
        true
    }

    open spec fn from_spec(bits: u8) -> IndirectData7 {
        <IndirectData7 as Register>::spec_from_bits(bits)
    }
}

impl From<IndirectData7> for u8 {
    fn from(r: IndirectData7) -> (bits: u8) {
        r.bits
    }
}

impl vstd::std_specs::convert::FromSpecImpl<IndirectData7> for u8 {
    open spec fn obeys_from_spec() -> bool {
        true
    }

    open spec fn from_spec(r: IndirectData7) -> u8 {
        r@
    }
}

impl From<IndirectData7> for State {
    fn from(r: IndirectData7) -> (s: State) {
        State::IndirectData7(r)
    }
}

impl vstd::std_specs::convert::FromSpecImpl<IndirectData7> for State {
    open spec fn obeys_from_spec() -> bool {
        true
    }

    open spec fn from_spec(r: IndirectData7) -> State {
        State::IndirectData7(r)
    }
}

impl core::convert::TryFrom<State> for IndirectData7 {
    type Error = InvalidAddress;

    fn try_from(s: State) -> (r: Result<IndirectData7, InvalidAddress>) {
        match s {
            State::IndirectData7(r) => Ok(r),
            _ => Err(InvalidAddress),
        }
    }
}

impl vstd::std_specs::convert::TryFromSpecImpl<State> for IndirectData7 {
    open spec fn obeys_try_from_spec() -> bool {
        true
    }

    open spec fn try_from_spec(s: State) -> Result<IndirectData7, InvalidAddress> {
        match s {
            State::IndirectData7(r) => Ok(r),
            _ => Err(InvalidAddress),
        }
    }
}

impl IndirectData7 {
    /// Provides read access to the individual fields of the register.
    pub fn read(&self) -> (r: R<IndirectData7>)
        ensures
            r.0 == *self,
    {
        R(*self)
    }

    /// Provides write access to the individual fields of the register.
    pub fn write(self) -> (w: W<IndirectData7>)
        ensures
            w.0 == self,
    {
        W(self)
    }
}

impl R<IndirectData7> {
    /// Read access to the `data` field.
    pub fn data(&self) -> (f: BitsR<u8>)
        ensures
            f.bits == load8(self.0@, 0xff, 0),
    {
        BitsR { bits: (self.0.bits & 0xff) >> 0u8 }
    }
}

impl W<IndirectData7> {
    /// Write access to the `data` field.
    pub fn data(self) -> (f: BitsW<IndirectData7>)
        ensures
            f.w == self,
            f.mask == 0xff,
            f.shift == 0,
    {
        BitsW { w: self, mask: 0xff, shift: 0 }
    }
}

/// The `IndirectData6` register, at address `0x7d`.
#[derive(Clone, Copy, Debug, PartialEq, Eq, Structural, Hash)]
pub struct IndirectData6 {
    bits: u8,
}

impl View for IndirectData6 {
    type V = u8;

    closed spec fn view(&self) -> u8 {
        self.bits
    }
}

impl Register for IndirectData6 {
    open spec fn spec_address() -> Address {
        Address::IndirectData6
    }

    closed spec fn spec_from_bits(bits: u8) -> IndirectData6 {
        IndirectData6 { bits }
    }

    proof fn lemma_from_bits(bits: u8) {
    }

    fn address() -> (a: Address) {
        Address::IndirectData6
    }

    fn from_bits(bits: u8) -> (r: IndirectData6) {
        IndirectData6 { bits }
    }

    fn to_bits(&self) -> (b: u8) {
        self.bits
    }
}

impl Default for IndirectData6 {
    fn default() -> (r: IndirectData6)
        ensures
            r@ == default_bits(Address::IndirectData6),
    {
        IndirectData6 { bits: 0x00 }
    }
}

impl From<u8> for IndirectData6 {
    fn from(bits: u8) -> (r: IndirectData6) {
        IndirectData6 { bits }
    }
}

impl vstd::std_specs::convert::FromSpecImpl<u8> for IndirectData6 {
    open spec fn obeys_from_spec() -> bool {
        true
    }

    open spec fn from_spec(bits: u8) -> IndirectData6 {
        <IndirectData6 as Register>::spec_from_bits(bits)
    }
}

impl From<IndirectData6> for u8 {
    fn from(r: IndirectData6) -> (bits: u8) {
        r.bits
    }
}

impl vstd::std_specs::convert::FromSpecImpl<IndirectData6> for u8 {
    open spec fn obeys_from_spec() -> bool {
        true
    }

    open spec fn from_spec(r: IndirectData6) -> u8 {
        r@
    }
}

impl From<IndirectData6> for State {
    fn from(r: IndirectData6) -> (s: State) {
        State::IndirectData6(r)
    }
}

impl vstd::std_specs::convert::FromSpecImpl<IndirectData6> for State {
    open spec fn obeys_from_spec() -> bool {
        true
    }

    open spec fn from_spec(r: IndirectData6) -> State {
        State::IndirectData6(r)
    }
}

impl core::convert::TryFrom<State> for IndirectData6 {
    type Error = InvalidAddress;

    fn try_from(s: State) -> (r: Result<IndirectData6, InvalidAddress>) {
        match s {
            State::IndirectData6(r) => Ok(r),
            _ => Err(InvalidAddress),
        }
    }
}

impl vstd::std_specs::convert::TryFromSpecImpl<State> for IndirectData6 {
    open spec fn obeys_try_from_spec() -> bool {
        true
    }

    open spec fn try_from_spec(s: State) -> Result<IndirectData6, InvalidAddress> {
        match s {
            State::IndirectData6(r) => Ok(r),
            _ => Err(InvalidAddress),
        }
    }
}

impl IndirectData6 {
    /// Provides read access to the individual fields of the register.
    pub fn read(&self) -> (r: R<IndirectData6>)
        ensures
            r.0 == *self,
    {
        R(*self)
    }

    /// Provides write access to the individual fields of the register.
    pub fn write(self) -> (w: W<IndirectData6>)
        ensures
            w.0 == self,
    {
        W(self)
    }
}

impl R<IndirectData6> {
    /// Read access to the `data` field.
    pub fn data(&self) -> (f: BitsR<u8>)
        ensures
            f.bits == load8(self.0@, 0xff, 0),
    {
        BitsR { bits: (self.0.bits & 0xff) >> 0u8 }
    }
}

impl W<IndirectData6> {
    /// Write access to the `data` field.
    pub fn data(self) -> (f: BitsW<IndirectData6>)
        ensures
            f.w == self,
            f.mask == 0xff,
            f.shift == 0,
    {
        BitsW { w: self, mask: 0xff, shift: 0 }
    }
}

/// The `IndirectData5` register, at address `0x7e`.
#[derive(Clone, Copy, Debug, PartialEq, Eq, Structural, Hash)]
pub struct IndirectData5 {
    bits: u8,
}

impl View for IndirectData5 {
    type V = u8;

    closed spec fn view(&self) -> u8 {
        self.bits
    }
}

impl Register for IndirectData5 {
    open spec fn spec_address() -> Address {
        Address::IndirectData5
    }

    closed spec fn spec_from_bits(bits: u8) -> IndirectData5 {
        IndirectData5 { bits }
    }

    proof fn lemma_from_bits(bits: u8) {
    }

    fn address() -> (a: Address) {
        Address::IndirectData5
    }

    fn from_bits(bits: u8) -> (r: IndirectData5) {
        IndirectData5 { bits }
    }

    fn to_bits(&self) -> (b: u8) {
        self.bits
    }
}

impl Default for IndirectData5 {
    fn default() -> (r: IndirectData5)
        ensures
            r@ == default_bits(Address::IndirectData5),
    {
        IndirectData5 { bits: 0x00 }
    }
}

impl From<u8> for IndirectData5 {
    fn from(bits: u8) -> (r: IndirectData5) {
        IndirectData5 { bits }
    }
}

impl vstd::std_specs::convert::FromSpecImpl<u8> for IndirectData5 {
    open spec fn obeys_from_spec() -> bool {
        true
    }

    open spec fn from_spec(bits: u8) -> IndirectData5 {
        <IndirectData5 as Register>::spec_from_bits(bits)
    }
}

impl From<IndirectData5> for u8 {
    fn from(r: IndirectData5) -> (bits: u8) {
        r.bits
    }
}

impl vstd::std_specs::convert::FromSpecImpl<IndirectData5> for u8 {
    open spec fn obeys_from_spec() -> bool {
        true
    }

    open spec fn from_spec(r: IndirectData5) -> u8 {
        r@
    }
}

impl From<IndirectData5> for State {
    fn from(r: IndirectData5) -> (s: State) {
        State::IndirectData5(r)
    }
}

impl vstd::std_specs::convert::FromSpecImpl<IndirectData5> for State {
    open spec fn obeys_from_spec() -> bool {
        true
    }

    open spec fn from_spec(r: IndirectData5) -> State {
        State::IndirectData5(r)
    }
}

impl core::convert::TryFrom<State> for IndirectData5 {
    type Error = InvalidAddress;

    fn try_from(s: State) -> (r: Result<IndirectData5, InvalidAddress>) {
        match s {
            State::IndirectData5(r) => Ok(r),
            _ => Err(InvalidAddress),
        }
    }
}

impl vstd::std_specs::convert::TryFromSpecImpl<State> for IndirectData5 {
    open spec fn obeys_try_from_spec() -> bool {
        true
    }

    open spec fn try_from_spec(s: State) -> Result<IndirectData5, InvalidAddress> {
        match s {
            State::IndirectData5(r) => Ok(r),
            _ => Err(InvalidAddress),
        }
    }
}

impl IndirectData5 {
    /// Provides read access to the individual fields of the register.
    pub fn read(&self) -> (r: R<IndirectData5>)
        ensures
            r.0 == *self,
    {
        R(*self)
    }

    /// Provides write access to the individual fields of the register.
    pub fn write(self) -> (w: W<IndirectData5>)
        ensures
            w.0 == self,
    {
        W(self)
    }
}

impl R<IndirectData5> {
    /// Read access to the `data` field.
    pub fn data(&self) -> (f: BitsR<u8>)
        ensures
            f.bits == load8(self.0@, 0xff, 0),
    {
        BitsR { bits: (self.0.bits & 0xff) >> 0u8 }
    }
}

impl W<IndirectData5> {
    /// Write access to the `data` field.
    pub fn data(self) -> (f: BitsW<IndirectData5>)
        ensures
            f.w == self,
            f.mask == 0xff,
            f.shift == 0,
    {
        BitsW { w: self, mask: 0xff, shift: 0 }
    }
}

/// The `IndirectData4` register, at address `0x7f`.
#[derive(Clone, Copy, Debug, PartialEq, Eq, Structural, Hash)]
pub struct IndirectData4 {
    bits: u8,
}

impl View for IndirectData4 {
    type V = u8;

    closed spec fn view(&self) -> u8 {
        self.bits
    }
}

impl Register for IndirectData4 {
    open spec fn spec_address() -> Address {
        Address::IndirectData4
    }

    closed spec fn spec_from_bits(bits: u8) -> IndirectData4 {
        IndirectData4 { bits }
    }

    proof fn lemma_from_bits(bits: u8) {
    }

    fn address() -> (a: Address) {
        Address::IndirectData4
    }

    fn from_bits(bits: u8) -> (r: IndirectData4) {
        IndirectData4 { bits }
    }

    fn to_bits(&self) -> (b: u8) {
        self.bits
    }
}

impl Default for IndirectData4 {
    fn default() -> (r: IndirectData4)
        ensures
            r@ == default_bits(Address::IndirectData4),
    {
        IndirectData4 { bits: 0x00 }
    }
}

impl From<u8> for IndirectData4 {
    fn from(bits: u8) -> (r: IndirectData4) {
        IndirectData4 { bits }
    }
}

impl vstd::std_specs::convert::FromSpecImpl<u8> for IndirectData4 {
    open spec fn obeys_from_spec() -> bool {
        true
    }

    open spec fn from_spec(bits: u8) -> IndirectData4 {
        <IndirectData4 as Register>::spec_from_bits(bits)
    }
}

impl From<IndirectData4> for u8 {
    fn from(r: IndirectData4) -> (bits: u8) {
        r.bits
    }
}

impl vstd::std_specs::convert::FromSpecImpl<IndirectData4> for u8 {
    open spec fn obeys_from_spec() -> bool {
        true
    }

    open spec fn from_spec(r: IndirectData4) -> u8 {
        r@
    }
}

impl From<IndirectData4> for State {
    fn from(r: IndirectData4) -> (s: State) {
        State::IndirectData4(r)
    }
}

impl vstd::std_specs::convert::FromSpecImpl<IndirectData4> for State {
    open spec fn obeys_from_spec() -> bool {
        true
    }

    open spec fn from_spec(r: IndirectData4) -> State {
        State::IndirectData4(r)
    }
}

impl core::convert::TryFrom<State> for IndirectData4 {
    type Error = InvalidAddress;

    fn try_from(s: State) -> (r: Result<IndirectData4, InvalidAddress>) {
        match s {
            State::IndirectData4(r) => Ok(r),
            _ => Err(InvalidAddress),
        }
    }
}

impl vstd::std_specs::convert::TryFromSpecImpl<State> for IndirectData4 {
    open spec fn obeys_try_from_spec() -> bool {
        true
    }

    open spec fn try_from_spec(s: State) -> Result<IndirectData4, InvalidAddress> {
        match s {
            State::IndirectData4(r) => Ok(r),
            _ => Err(InvalidAddress),
        }
    }
}

impl IndirectData4 {
    /// Provides read access to the individual fields of the register.
    pub fn read(&self) -> (r: R<IndirectData4>)
        ensures
            r.0 == *self,
    {
        R(*self)
    }

    /// Provides write access to the individual fields of the register.
    pub fn write(self) -> (w: W<IndirectData4>)
        ensures
            w.0 == self,
    {
        W(self)
    }
}

impl R<IndirectData4> {
    /// Read access to the `data` field.
    pub fn data(&self) -> (f: BitsR<u8>)
        ensures
            f.bits == load8(self.0@, 0xff, 0),
    {
        BitsR { bits: (self.0.bits & 0xff) >> 0u8 }
    }
}

impl W<IndirectData4> {
    /// Write access to the `data` field.
    pub fn data(self) -> (f: BitsW<IndirectData4>)
        ensures
            f.w == self,
            f.mask == 0xff,
            f.shift == 0,
    {
        BitsW { w: self, mask: 0xff, shift: 0 }
    }
}

/// The `IndirectData3` register, at address `0x80`.
#[derive(Clone, Copy, Debug, PartialEq, Eq, Structural, Hash)]
pub struct IndirectData3 {
    bits: u8,
}

impl View for IndirectData3 {
    type V = u8;

    closed spec fn view(&self) -> u8 {
        self.bits
    }
}

impl Register for IndirectData3 {
    open spec fn spec_address() -> Address {
        Address::IndirectData3
    }

    closed spec fn spec_from_bits(bits: u8) -> IndirectData3 {
        IndirectData3 { bits }
    }

    proof fn lemma_from_bits(bits: u8) {
    }

    fn address() -> (a: Address) {
        Address::IndirectData3
    }

    fn from_bits(bits: u8) -> (r: IndirectData3) {
        IndirectData3 { bits }
    }

    fn to_bits(&self) -> (b: u8) {
        self.bits
    }
}

impl Default for IndirectData3 {
    fn default() -> (r: IndirectData3)
        ensures
            r@ == default_bits(Address::IndirectData3),
    {
        IndirectData3 { bits: 0x00 }
    }
}

impl From<u8> for IndirectData3 {
    fn from(bits: u8) -> (r: IndirectData3) {
        IndirectData3 { bits }
    }
}

impl vstd::std_specs::convert::FromSpecImpl<u8> for IndirectData3 {
    open spec fn obeys_from_spec() -> bool {
        true
    }

    open spec fn from_spec(bits: u8) -> IndirectData3 {
        <IndirectData3 as Register>::spec_from_bits(bits)
    }
}

impl From<IndirectData3> for u8 {
    fn from(r: IndirectData3) -> (bits: u8) {
        r.bits
    }
}

impl vstd::std_specs::convert::FromSpecImpl<IndirectData3> for u8 {
    open spec fn obeys_from_spec() -> bool {
        true
    }

    open spec fn from_spec(r: IndirectData3) -> u8 {
        r@
    }
}

impl From<IndirectData3> for State {
    fn from(r: IndirectData3) -> (s: State) {
        State::IndirectData3(r)
    }
}

impl vstd::std_specs::convert::FromSpecImpl<IndirectData3> for State {
    open spec fn obeys_from_spec() -> bool {
        true
    }

    open spec fn from_spec(r: IndirectData3) -> State {
        State::IndirectData3(r)
    }
}

impl core::convert::TryFrom<State> for IndirectData3 {
    type Error = InvalidAddress;

    fn try_from(s: State) -> (r: Result<IndirectData3, InvalidAddress>) {
        match s {
            State::IndirectData3(r) => Ok(r),
            _ => Err(InvalidAddress),
        }
    }
}

impl vstd::std_specs::convert::TryFromSpecImpl<State> for IndirectData3 {
    open spec fn obeys_try_from_spec() -> bool {
        true
    }

    open spec fn try_from_spec(s: State) -> Result<IndirectData3, InvalidAddress> {
        match s {
            State::IndirectData3(r) => Ok(r),
            _ => Err(InvalidAddress),
        }
    }
}

impl IndirectData3 {
    /// Provides read access to the individual fields of the register.
    pub fn read(&self) -> (r: R<IndirectData3>)
        ensures
            r.0 == *self,
    {
        R(*self)
    }

    /// Provides write access to the individual fields of the register.
    pub fn write(self) -> (w: W<IndirectData3>)
        ensures
            w.0 == self,
    {
        W(self)
    }
}

impl R<IndirectData3> {
    /// Read access to the `data` field.
    pub fn data(&self) -> (f: BitsR<u8>)
        ensures
            f.bits == load8(self.0@, 0xff, 0),
    {
        BitsR { bits: (self.0.bits & 0xff) >> 0u8 }
    }
}

impl W<IndirectData3> {
    /// Write access to the `data` field.
    pub fn data(self) -> (f: BitsW<IndirectData3>)
        ensures
            f.w == self,
            f.mask == 0xff,
            f.shift == 0,
    {
        BitsW { w: self, mask: 0xff, shift: 0 }
    }
}

/// The `IndirectData2` register, at address `0x81`.
#[derive(Clone, Copy, Debug, PartialEq, Eq, Structural, Hash)]
pub struct IndirectData2 {
    bits: u8,
}

impl View for IndirectData2 {
    type V = u8;

    closed spec fn view(&self) -> u8 {
        self.bits
    }
}

impl Register for IndirectData2 {
    open spec fn spec_address() -> Address {
        Address::IndirectData2
    }

    closed spec fn spec_from_bits(bits: u8) -> IndirectData2 {
        IndirectData2 { bits }
    }

    proof fn lemma_from_bits(bits: u8) {
    }

    fn address() -> (a: Address) {
        Address::IndirectData2
    }

    fn from_bits(bits: u8) -> (r: IndirectData2) {
        IndirectData2 { bits }
    }

    fn to_bits(&self) -> (b: u8) {
        self.bits
    }
}

impl Default for IndirectData2 {
    fn default() -> (r: IndirectData2)
        ensures
            r@ == default_bits(Address::IndirectData2),
    {
        IndirectData2 { bits: 0x00 }
    }
}

impl From<u8> for IndirectData2 {
    fn from(bits: u8) -> (r: IndirectData2) {
        IndirectData2 { bits }
    }
}

impl vstd::std_specs::convert::FromSpecImpl<u8> for IndirectData2 {
    open spec fn obeys_from_spec() -> bool {
        true
    }

    open spec fn from_spec(bits: u8) -> IndirectData2 {
        <IndirectData2 as Register>::spec_from_bits(bits)
    }
}

impl From<IndirectData2> for u8 {
    fn from(r: IndirectData2) -> (bits: u8) {
        r.bits
    }
}

impl vstd::std_specs::convert::FromSpecImpl<IndirectData2> for u8 {
    open spec fn obeys_from_spec() -> bool {
        true
    }

    open spec fn from_spec(r: IndirectData2) -> u8 {
        r@
    }
}

impl From<IndirectData2> for State {
    fn from(r: IndirectData2) -> (s: State) {
        State::IndirectData2(r)
    }
}

impl vstd::std_specs::convert::FromSpecImpl<IndirectData2> for State {
    open spec fn obeys_from_spec() -> bool {
        true
    }

    open spec fn from_spec(r: IndirectData2) -> State {
        State::IndirectData2(r)
    }
}

impl core::convert::TryFrom<State> for IndirectData2 {
    type Error = InvalidAddress;

    fn try_from(s: State) -> (r: Result<IndirectData2, InvalidAddress>) {
        match s {
            State::IndirectData2(r) => Ok(r),
            _ => Err(InvalidAddress),
        }
    }
}

impl vstd::std_specs::convert::TryFromSpecImpl<State> for IndirectData2 {
    open spec fn obeys_try_from_spec() -> bool {
        true
    }

    open spec fn try_from_spec(s: State) -> Result<IndirectData2, InvalidAddress> {
        match s {
            State::IndirectData2(r) => Ok(r),
            _ => Err(InvalidAddress),
        }
    }
}

impl IndirectData2 {
    /// Provides read access to the individual fields of the register.
    pub fn read(&self) -> (r: R<IndirectData2>)
        ensures
            r.0 == *self,
    {
        R(*self)
    }

    /// Provides write access to the individual fields of the register.
    pub fn write(self) -> (w: W<IndirectData2>)
        ensures
            w.0 == self,
    {
        W(self)
    }
}

impl R<IndirectData2> {
    /// Read access to the `data` field.
    pub fn data(&self) -> (f: BitsR<u8>)
        ensures
            f.bits == load8(self.0@, 0xff, 0),
    {
        BitsR { bits: (self.0.bits & 0xff) >> 0u8 }
    }
}

impl W<IndirectData2> {
    /// Write access to the `data` field.
    pub fn data(self) -> (f: BitsW<IndirectData2>)
        ensures
            f.w == self,
            f.mask == 0xff,
            f.shift == 0,
    {
        BitsW { w: self, mask: 0xff, shift: 0 }
    }
}

/// The `IndirectData1` register, at address `0x82`.
#[derive(Clone, Copy, Debug, PartialEq, Eq, Structural, Hash)]
pub struct IndirectData1 {
    bits: u8,
}

impl View for IndirectData1 {
    type V = u8;

    closed spec fn view(&self) -> u8 {
        self.bits
    }
}

impl Register for IndirectData1 {
    open spec fn spec_address() -> Address {
        Address::IndirectData1
    }

    closed spec fn spec_from_bits(bits: u8) -> IndirectData1 {
        IndirectData1 { bits }
    }

    proof fn lemma_from_bits(bits: u8) {
    }

    fn address() -> (a: Address) {
        Address::IndirectData1
    }

    fn from_bits(bits: u8) -> (r: IndirectData1) {
        IndirectData1 { bits }
    }

    fn to_bits(&self) -> (b: u8) {
        self.bits
    }
}

impl Default for IndirectData1 {
    fn default() -> (r: IndirectData1)
        ensures
            r@ == default_bits(Address::IndirectData1),
    {
        IndirectData1 { bits: 0x00 }
    }
}

impl From<u8> for IndirectData1 {
    fn from(bits: u8) -> (r: IndirectData1) {
        IndirectData1 { bits }
    }
}

impl vstd::std_specs::convert::FromSpecImpl<u8> for IndirectData1 {
    open spec fn obeys_from_spec() -> bool {
        true
    }

    open spec fn from_spec(bits: u8) -> IndirectData1 {
        <IndirectData1 as Register>::spec_from_bits(bits)
    }
}

impl From<IndirectData1> for u8 {
    fn from(r: IndirectData1) -> (bits: u8) {
        r.bits
    }
}

impl vstd::std_specs::convert::FromSpecImpl<IndirectData1> for u8 {
    open spec fn obeys_from_spec() -> bool {
        true
    }

    open spec fn from_spec(r: IndirectData1) -> u8 {
        r@
    }
}

impl From<IndirectData1> for State {
    fn from(r: IndirectData1) -> (s: State) {
        State::IndirectData1(r)
    }
}

impl vstd::std_specs::convert::FromSpecImpl<IndirectData1> for State {
    open spec fn obeys_from_spec() -> bool {
        true
    }

    open spec fn from_spec(r: IndirectData1) -> State {
        State::IndirectData1(r)
    }
}

impl core::convert::TryFrom<State> for IndirectData1 {
    type Error = InvalidAddress;

    fn try_from(s: State) -> (r: Result<IndirectData1, InvalidAddress>) {
        match s {
            State::IndirectData1(r) => Ok(r),
            _ => Err(InvalidAddress),
        }
    }
}

impl vstd::std_specs::convert::TryFromSpecImpl<State> for IndirectData1 {
    open spec fn obeys_try_from_spec() -> bool {
        true
    }

    open spec fn try_from_spec(s: State) -> Result<IndirectData1, InvalidAddress> {
        match s {
            State::IndirectData1(r) => Ok(r),
            _ => Err(InvalidAddress),
        }
    }
}

impl IndirectData1 {
    /// Provides read access to the individual fields of the register.
    pub fn read(&self) -> (r: R<IndirectData1>)
        ensures
            r.0 == *self,
    {
        R(*self)
    }

    /// Provides write access to the individual fields of the register.
    pub fn write(self) -> (w: W<IndirectData1>)
        ensures
            w.0 == self,
    {
        W(self)
    }
}

impl R<IndirectData1> {
    /// Read access to the `data` field.
    pub fn data(&self) -> (f: BitsR<u8>)
        ensures
            f.bits == load8(self.0@, 0xff, 0),
    {
        BitsR { bits: (self.0.bits & 0xff) >> 0u8 }
    }
}

impl W<IndirectData1> {
    /// Write access to the `data` field.
    pub fn data(self) -> (f: BitsW<IndirectData1>)
        ensures
            f.w == self,
            f.mask == 0xff,
            f.shift == 0,
    {
        BitsW { w: self, mask: 0xff, shift: 0 }
    }
}

/// The `IndirectData0` register, at address `0x83`.
#[derive(Clone, Copy, Debug, PartialEq, Eq, Structural, Hash)]
pub struct IndirectData0 {
    bits: u8,
}

impl View for IndirectData0 {
    type V = u8;

    closed spec fn view(&self) -> u8 {
        self.bits
    }
}

impl Register for IndirectData0 {
    open spec fn spec_address() -> Address {
        Address::IndirectData0
    }

    closed spec fn spec_from_bits(bits: u8) -> IndirectData0 {
        IndirectData0 { bits }
    }

    proof fn lemma_from_bits(bits: u8) {
    }

    fn address() -> (a: Address) {
        Address::IndirectData0
    }

    fn from_bits(bits: u8) -> (r: IndirectData0) {
        IndirectData0 { bits }
    }

    fn to_bits(&self) -> (b: u8) {
        self.bits
    }
}

impl Default for IndirectData0 {
    fn default() -> (r: IndirectData0)
        ensures
            r@ == default_bits(Address::IndirectData0),
    {
        IndirectData0 { bits: 0x00 }
    }
}

impl From<u8> for IndirectData0 {
    fn from(bits: u8) -> (r: IndirectData0) {
        IndirectData0 { bits }
    }
}

impl vstd::std_specs::convert::FromSpecImpl<u8> for IndirectData0 {
    open spec fn obeys_from_spec() -> bool {
        true
    }

    open spec fn from_spec(bits: u8) -> IndirectData0 {
        <IndirectData0 as Register>::spec_from_bits(bits)
    }
}

impl From<IndirectData0> for u8 {
    fn from(r: IndirectData0) -> (bits: u8) {
        r.bits
    }
}

impl vstd::std_specs::convert::FromSpecImpl<IndirectData0> for u8 {
    open spec fn obeys_from_spec() -> bool {
        true
    }

    open spec fn from_spec(r: IndirectData0) -> u8 {
        r@
    }
}

impl From<IndirectData0> for State {
    fn from(r: IndirectData0) -> (s: State) {
        State::IndirectData0(r)
    }
}

impl vstd::std_specs::convert::FromSpecImpl<IndirectData0> for State {
    open spec fn obeys_from_spec() -> bool {
        true
    }

    open spec fn from_spec(r: IndirectData0) -> State {
        State::IndirectData0(r)
    }
}

impl core::convert::TryFrom<State> for IndirectData0 {
    type Error = InvalidAddress;

    fn try_from(s: State) -> (r: Result<IndirectData0, InvalidAddress>) {
        match s {
            State::IndirectData0(r) => Ok(r),
            _ => Err(InvalidAddress),
        }
    }
}

impl vstd::std_specs::convert::TryFromSpecImpl<State> for IndirectData0 {
    open spec fn obeys_try_from_spec() -> bool {
        true
    }

    open spec fn try_from_spec(s: State) -> Result<IndirectData0, InvalidAddress> {
        match s {
            State::IndirectData0(r) => Ok(r),
            _ => Err(InvalidAddress),
        }
    }
}

impl IndirectData0 {
    /// Provides read access to the individual fields of the register.
    pub fn read(&self) -> (r: R<IndirectData0>)
        ensures
            r.0 == *self,
    {
        R(*self)
    }

    /// Provides write access to the individual fields of the register.
    pub fn write(self) -> (w: W<IndirectData0>)
        ensures
            w.0 == self,
    {
        W(self)
    }
}

impl R<IndirectData0> {
    /// Read access to the `data` field.
    pub fn data(&self) -> (f: BitsR<u8>)
        ensures
            f.bits == load8(self.0@, 0xff, 0),
    {
        BitsR { bits: (self.0.bits & 0xff) >> 0u8 }
    }
}

impl W<IndirectData0> {
    /// Write access to the `data` field.
    pub fn data(self) -> (f: BitsW<IndirectData0>)
        ensures
            f.w == self,
            f.mask == 0xff,
            f.shift == 0,
    {
        BitsW { w: self, mask: 0xff, shift: 0 }
    }
}

/// The `Station1MacAddr0` register, at address `0x8e`.
#[derive(Clone, Copy, Debug, PartialEq, Eq, Structural, Hash)]
pub struct Station1MacAddr0 {
    bits: u8,
}

impl View for Station1MacAddr0 {
    type V = u8;

    closed spec fn view(&self) -> u8 {
        self.bits
    }
}

impl Register for Station1MacAddr0 {
    open spec fn spec_address() -> Address {
        Address::Station1MacAddr0
    }

    closed spec fn spec_from_bits(bits: u8) -> Station1MacAddr0 {
        Station1MacAddr0 { bits }
    }

    proof fn lemma_from_bits(bits: u8) {
    }

    fn address() -> (a: Address) {
        Address::Station1MacAddr0
    }

    fn from_bits(bits: u8) -> (r: Station1MacAddr0) {
        Station1MacAddr0 { bits }
    }

    fn to_bits(&self) -> (b: u8) {
        self.bits
    }
}

impl Default for Station1MacAddr0 {
    fn default() -> (r: Station1MacAddr0)
        ensures
            r@ == default_bits(Address::Station1MacAddr0),
    {
        Station1MacAddr0 { bits: 0x00 }
    }
}

impl From<u8> for Station1MacAddr0 {
    fn from(bits: u8) -> (r: Station1MacAddr0) {
        Station1MacAddr0 { bits }
    }
}

impl vstd::std_specs::convert::FromSpecImpl<u8> for Station1MacAddr0 {
    open spec fn obeys_from_spec() -> bool {
        true
    }

    open spec fn from_spec(bits: u8) -> Station1MacAddr0 {
        <Station1MacAddr0 as Register>::spec_from_bits(bits)
    }
}

impl From<Station1MacAddr0> for u8 {
    fn from(r: Station1MacAddr0) -> (bits: u8) {
        r.bits
    }
}

impl vstd::std_specs::convert::FromSpecImpl<Station1MacAddr0> for u8 {
    open spec fn obeys_from_spec() -> bool {
        true
    }

    open spec fn from_spec(r: Station1MacAddr0) -> u8 {
        r@
    }
}

impl From<Station1MacAddr0> for State {
    fn from(r: Station1MacAddr0) -> (s: State) {
        State::Station1MacAddr0(r)
    }
}

impl vstd::std_specs::convert::FromSpecImpl<Station1MacAddr0> for State {
    open spec fn obeys_from_spec() -> bool {
        true
    }

    open spec fn from_spec(r: Station1MacAddr0) -> State {
        State::Station1MacAddr0(r)
    }
}

impl core::convert::TryFrom<State> for Station1MacAddr0 {
    type Error = InvalidAddress;

    fn try_from(s: State) -> (r: Result<Station1MacAddr0, InvalidAddress>) {
        match s {
            State::Station1MacAddr0(r) => Ok(r),
            _ => Err(InvalidAddress),
        }
    }
}

impl vstd::std_specs::convert::TryFromSpecImpl<State> for Station1MacAddr0 {
    open spec fn obeys_try_from_spec() -> bool {
        true
    }

    open spec fn try_from_spec(s: State) -> Result<Station1MacAddr0, InvalidAddress> {
        match s {
            State::Station1MacAddr0(r) => Ok(r),
            _ => Err(InvalidAddress),
        }
    }
}

impl Station1MacAddr0 {
    /// Provides read access to the individual fields of the register.
    pub fn read(&self) -> (r: R<Station1MacAddr0>)
        ensures
            r.0 == *self,
    {
        R(*self)
    }

    /// Provides write access to the individual fields of the register.
    pub fn write(self) -> (w: W<Station1MacAddr0>)
        ensures
            w.0 == self,
    {
        W(self)
    }
}

impl R<Station1MacAddr0> {
    /// Read access to the `data` field.
    pub fn data(&self) -> (f: BitsR<u8>)
        ensures
            f.bits == load8(self.0@, 0xff, 0),
    {
        BitsR { bits: (self.0.bits & 0xff) >> 0u8 }
    }
}

impl W<Station1MacAddr0> {
    /// Write access to the `data` field.
    pub fn data(self) -> (f: BitsW<Station1MacAddr0>)
        ensures
            f.w == self,
            f.mask == 0xff,
            f.shift == 0,
    {
        BitsW { w: self, mask: 0xff, shift: 0 }
    }
}

/// The `Station1MacAddr1` register, at address `0x8f`.
#[derive(Clone, Copy, Debug, PartialEq, Eq, Structural, Hash)]
pub struct Station1MacAddr1 {
    bits: u8,
}

impl View for Station1MacAddr1 {
    type V = u8;

    closed spec fn view(&self) -> u8 {
        self.bits
    }
}

impl Register for Station1MacAddr1 {
    open spec fn spec_address() -> Address {
        Address::Station1MacAddr1
    }

    closed spec fn spec_from_bits(bits: u8) -> Station1MacAddr1 {
        Station1MacAddr1 { bits }
    }

    proof fn lemma_from_bits(bits: u8) {
    }

    fn address() -> (a: Address) {
        Address::Station1MacAddr1
    }

    fn from_bits(bits: u8) -> (r: Station1MacAddr1) {
        Station1MacAddr1 { bits }
    }

    fn to_bits(&self) -> (b: u8) {
        self.bits
    }
}

impl Default for Station1MacAddr1 {
    fn default() -> (r: Station1MacAddr1)
        ensures
            r@ == default_bits(Address::Station1MacAddr1),
    {
        Station1MacAddr1 { bits: 0x00 }
    }
}

impl From<u8> for Station1MacAddr1 {
    fn from(bits: u8) -> (r: Station1MacAddr1) {
        Station1MacAddr1 { bits }
    }
}

impl vstd::std_specs::convert::FromSpecImpl<u8> for Station1MacAddr1 {
    open spec fn obeys_from_spec() -> bool {
        true
    }

    open spec fn from_spec(bits: u8) -> Station1MacAddr1 {
        <Station1MacAddr1 as Register>::spec_from_bits(bits)
    }
}

impl From<Station1MacAddr1> for u8 {
    fn from(r: Station1MacAddr1) -> (bits: u8) {
        r.bits
    }
}

impl vstd::std_specs::convert::FromSpecImpl<Station1MacAddr1> for u8 {
    open spec fn obeys_from_spec() -> bool {
        true
    }

    open spec fn from_spec(r: Station1MacAddr1) -> u8 {
        r@
    }
}

impl From<Station1MacAddr1> for State {
    fn from(r: Station1MacAddr1) -> (s: State) {
        State::Station1MacAddr1(r)
    }
}

impl vstd::std_specs::convert::FromSpecImpl<Station1MacAddr1> for State {
    open spec fn obeys_from_spec() -> bool {
        true
    }

    open spec fn from_spec(r: Station1MacAddr1) -> State {
        State::Station1MacAddr1(r)
    }
}

impl core::convert::TryFrom<State> for Station1MacAddr1 {
    type Error = InvalidAddress;

    fn try_from(s: State) -> (r: Result<Station1MacAddr1, InvalidAddress>) {
        match s {
            State::Station1MacAddr1(r) => Ok(r),
            _ => Err(InvalidAddress),
        }
    }
}

impl vstd::std_specs::convert::TryFromSpecImpl<State> for Station1MacAddr1 {
    open spec fn obeys_try_from_spec() -> bool {
        true
    }

    open spec fn try_from_spec(s: State) -> Result<Station1MacAddr1, InvalidAddress> {
        match s {
            State::Station1MacAddr1(r) => Ok(r),
            _ => Err(InvalidAddress),
        }
    }
}

impl Station1MacAddr1 {
    /// Provides read access to the individual fields of the register.
    pub fn read(&self) -> (r: R<Station1MacAddr1>)
        ensures
            r.0 == *self,
    {
        R(*self)
    }

    /// Provides write access to the individual fields of the register.
    pub fn write(self) -> (w: W<Station1MacAddr1>)
        ensures
            w.0 == self,
    {
        W(self)
    }
}

impl R<Station1MacAddr1> {
    /// Read access to the `data` field.
    pub fn data(&self) -> (f: BitsR<u8>)
        ensures
            f.bits == load8(self.0@, 0xff, 0),
    {
        BitsR { bits: (self.0.bits & 0xff) >> 0u8 }
    }
}

impl W<Station1MacAddr1> {
    /// Write access to the `data` field.
    pub fn data(self) -> (f: BitsW<Station1MacAddr1>)
        ensures
            f.w == self,
            f.mask == 0xff,
            f.shift == 0,
    {
        BitsW { w: self, mask: 0xff, shift: 0 }
    }
}

/// The `Station1MacAddr2` register, at address `0x90`.
#[derive(Clone, Copy, Debug, PartialEq, Eq, Structural, Hash)]
pub struct Station1MacAddr2 {
    bits: u8,
}

impl View for Station1MacAddr2 {
    type V = u8;

    closed spec fn view(&self) -> u8 {
        self.bits
    }
}

impl Register for Station1MacAddr2 {
    open spec fn spec_address() -> Address {
        Address::Station1MacAddr2
    }

    closed spec fn spec_from_bits(bits: u8) -> Station1MacAddr2 {
        Station1MacAddr2 { bits }
    }

    proof fn lemma_from_bits(bits: u8) {
    }

    fn address() -> (a: Address) {
        Address::Station1MacAddr2
    }

    fn from_bits(bits: u8) -> (r: Station1MacAddr2) {
        Station1MacAddr2 { bits }
    }

    fn to_bits(&self) -> (b: u8) {
        self.bits
    }
}

impl Default for Station1MacAddr2 {
    fn default() -> (r: Station1MacAddr2)
        ensures
            r@ == default_bits(Address::Station1MacAddr2),
    {
        Station1MacAddr2 { bits: 0x00 }
    }
}

impl From<u8> for Station1MacAddr2 {
    fn from(bits: u8) -> (r: Station1MacAddr2) {
        Station1MacAddr2 { bits }
    }
}

impl vstd::std_specs::convert::FromSpecImpl<u8> for Station1MacAddr2 {
    open spec fn obeys_from_spec() -> bool {
        true
    }

    open spec fn from_spec(bits: u8) -> Station1MacAddr2 {
        <Station1MacAddr2 as Register>::spec_from_bits(bits)
    }
}

impl From<Station1MacAddr2> for u8 {
    fn from(r: Station1MacAddr2) -> (bits: u8) {
        r.bits
    }
}

impl vstd::std_specs::convert::FromSpecImpl<Station1MacAddr2> for u8 {
    open spec fn obeys_from_spec() -> bool {
        true
    }

    open spec fn from_spec(r: Station1MacAddr2) -> u8 {
        r@
    }
}

impl From<Station1MacAddr2> for State {
    fn from(r: Station1MacAddr2) -> (s: State) {
        State::Station1MacAddr2(r)
    }
}

impl vstd::std_specs::convert::FromSpecImpl<Station1MacAddr2> for State {
    open spec fn obeys_from_spec() -> bool {
        true
    }

    open spec fn from_spec(r: Station1MacAddr2) -> State {
        State::Station1MacAddr2(r)
    }
}

impl core::convert::TryFrom<State> for Station1MacAddr2 {
    type Error = InvalidAddress;

    fn try_from(s: State) -> (r: Result<Station1MacAddr2, InvalidAddress>) {
        match s {
            State::Station1MacAddr2(r) => Ok(r),
            _ => Err(InvalidAddress),
        }
    }
}

impl vstd::std_specs::convert::TryFromSpecImpl<State> for Station1MacAddr2 {
    open spec fn obeys_try_from_spec() -> bool {
        true
    }

    open spec fn try_from_spec(s: State) -> Result<Station1MacAddr2, InvalidAddress> {
        match s {
            State::Station1MacAddr2(r) => Ok(r),
            _ => Err(InvalidAddress),
        }
    }
}

impl Station1MacAddr2 {
    /// Provides read access to the individual fields of the register.
    pub fn read(&self) -> (r: R<Station1MacAddr2>)
        ensures
            r.0 == *self,
    {
        R(*self)
    }

    /// Provides write access to the individual fields of the register.
    pub fn write(self) -> (w: W<Station1MacAddr2>)
        ensures
            w.0 == self,
    {
        W(self)
    }
}

impl R<Station1MacAddr2> {
    /// Read access to the `data` field.
    pub fn data(&self) -> (f: BitsR<u8>)
        ensures
            f.bits == load8(self.0@, 0xff, 0),
    {
        BitsR { bits: (self.0.bits & 0xff) >> 0u8 }
    }
}

impl W<Station1MacAddr2> {
    /// Write access to the `data` field.
    pub fn data(self) -> (f: BitsW<Station1MacAddr2>)
        ensures
            f.w == self,
            f.mask == 0xff,
            f.shift == 0,
    {
        BitsW { w: self, mask: 0xff, shift: 0 }
    }
}

/// The `Station1MacAddr3` register, at address `0x91`.
#[derive(Clone, Copy, Debug, PartialEq, Eq, Structural, Hash)]
pub struct Station1MacAddr3 {
    bits: u8,
}

impl View for Station1MacAddr3 {
    type V = u8;

    closed spec fn view(&self) -> u8 {
        self.bits
    }
}

impl Register for Station1MacAddr3 {
    open spec fn spec_address() -> Address {
        Address::Station1MacAddr3
    }

    closed spec fn spec_from_bits(bits: u8) -> Station1MacAddr3 {
        Station1MacAddr3 { bits }
    }

    proof fn lemma_from_bits(bits: u8) {
    }

    fn address() -> (a: Address) {
        Address::Station1MacAddr3
    }

    fn from_bits(bits: u8) -> (r: Station1MacAddr3) {
        Station1MacAddr3 { bits }
    }

    fn to_bits(&self) -> (b: u8) {
        self.bits
    }
}

impl Default for Station1MacAddr3 {
    fn default() -> (r: Station1MacAddr3)
        ensures
            r@ == default_bits(Address::Station1MacAddr3),
    {
        Station1MacAddr3 { bits: 0x00 }
    }
}

impl From<u8> for Station1MacAddr3 {
    fn from(bits: u8) -> (r: Station1MacAddr3) {
        Station1MacAddr3 { bits }
    }
}

impl vstd::std_specs::convert::FromSpecImpl<u8> for Station1MacAddr3 {
    open spec fn obeys_from_spec() -> bool {
        true
    }

    open spec fn from_spec(bits: u8) -> Station1MacAddr3 {
        <Station1MacAddr3 as Register>::spec_from_bits(bits)
    }
}

impl From<Station1MacAddr3> for u8 {
    fn from(r: Station1MacAddr3) -> (bits: u8) {
        r.bits
    }
}

impl vstd::std_specs::convert::FromSpecImpl<Station1MacAddr3> for u8 {
    open spec fn obeys_from_spec() -> bool {
        true
    }

    open spec fn from_spec(r: Station1MacAddr3) -> u8 {
        r@
    }
}

impl From<Station1MacAddr3> for State {
    fn from(r: Station1MacAddr3) -> (s: State) {
        State::Station1MacAddr3(r)
    }
}

impl vstd::std_specs::convert::FromSpecImpl<Station1MacAddr3> for State {
    open spec fn obeys_from_spec() -> bool {
        true
    }

    open spec fn from_spec(r: Station1MacAddr3) -> State {
        State::Station1MacAddr3(r)
    }
}

impl core::convert::TryFrom<State> for Station1MacAddr3 {
    type Error = InvalidAddress;

    fn try_from(s: State) -> (r: Result<Station1MacAddr3, InvalidAddress>) {
        match s {
            State::Station1MacAddr3(r) => Ok(r),
            _ => Err(InvalidAddress),
        }
    }
}

impl vstd::std_specs::convert::TryFromSpecImpl<State> for Station1MacAddr3 {
    open spec fn obeys_try_from_spec() -> bool {
        true
    }

    open spec fn try_from_spec(s: State) -> Result<Station1MacAddr3, InvalidAddress> {
        match s {
            State::Station1MacAddr3(r) => Ok(r),
            _ => Err(InvalidAddress),
        }
    }
}

impl Station1MacAddr3 {
    /// Provides read access to the individual fields of the register.
    pub fn read(&self) -> (r: R<Station1MacAddr3>)
        ensures
            r.0 == *self,
    {
        R(*self)
    }

    /// Provides write access to the individual fields of the register.
    pub fn write(self) -> (w: W<Station1MacAddr3>)
        ensures
            w.0 == self,
    {
        W(self)
    }
}

impl R<Station1MacAddr3> {
    /// Read access to the `data` field.
    pub fn data(&self) -> (f: BitsR<u8>)
        ensures
            f.bits == load8(self.0@, 0xff, 0),
    {
        BitsR { bits: (self.0.bits & 0xff) >> 0u8 }
    }
}

impl W<Station1MacAddr3> {
    /// Write access to the `data` field.
    pub fn data(self) -> (f: BitsW<Station1MacAddr3>)
        ensures
            f.w == self,
            f.mask == 0xff,
            f.shift == 0,
    {
        BitsW { w: self, mask: 0xff, shift: 0 }
    }
}

/// The `Station1MacAddr4` register, at address `0x92`.
#[derive(Clone, Copy, Debug, PartialEq, Eq, Structural, Hash)]
pub struct Station1MacAddr4 {
    bits: u8,
}

impl View for Station1MacAddr4 {
    type V = u8;

    closed spec fn view(&self) -> u8 {
        self.bits
    }
}

impl Register for Station1MacAddr4 {
    open spec fn spec_address() -> Address {
        Address::Station1MacAddr4
    }

    closed spec fn spec_from_bits(bits: u8) -> Station1MacAddr4 {
        Station1MacAddr4 { bits }
    }

    proof fn lemma_from_bits(bits: u8) {
    }

    fn address() -> (a: Address) {
        Address::Station1MacAddr4
    }

    fn from_bits(bits: u8) -> (r: Station1MacAddr4) {
        Station1MacAddr4 { bits }
    }

    fn to_bits(&self) -> (b: u8) {
        self.bits
    }
}

impl Default for Station1MacAddr4 {
    fn default() -> (r: Station1MacAddr4)
        ensures
            r@ == default_bits(Address::Station1MacAddr4),
    {
        Station1MacAddr4 { bits: 0x00 }
    }
}

impl From<u8> for Station1MacAddr4 {
    fn from(bits: u8) -> (r: Station1MacAddr4) {
        Station1MacAddr4 { bits }
    }
}

impl vstd::std_specs::convert::FromSpecImpl<u8> for Station1MacAddr4 {
    open spec fn obeys_from_spec() -> bool {
        true
    }

    open spec fn from_spec(bits: u8) -> Station1MacAddr4 {
        <Station1MacAddr4 as Register>::spec_from_bits(bits)
    }
}

impl From<Station1MacAddr4> for u8 {
    fn from(r: Station1MacAddr4) -> (bits: u8) {
        r.bits
    }
}

impl vstd::std_specs::convert::FromSpecImpl<Station1MacAddr4> for u8 {
    open spec fn obeys_from_spec() -> bool {
        true
    }

    open spec fn from_spec(r: Station1MacAddr4) -> u8 {
        r@
    }
}

impl From<Station1MacAddr4> for State {
    fn from(r: Station1MacAddr4) -> (s: State) {
        State::Station1MacAddr4(r)
    }
}

impl vstd::std_specs::convert::FromSpecImpl<Station1MacAddr4> for State {
    open spec fn obeys_from_spec() -> bool {
        true
    }

    open spec fn from_spec(r: Station1MacAddr4) -> State {
        State::Station1MacAddr4(r)
    }
}

impl core::convert::TryFrom<State> for Station1MacAddr4 {
    type Error = InvalidAddress;

    fn try_from(s: State) -> (r: Result<Station1MacAddr4, InvalidAddress>) {
        match s {
            State::Station1MacAddr4(r) => Ok(r),
            _ => Err(InvalidAddress),
        }
    }
}

impl vstd::std_specs::convert::TryFromSpecImpl<State> for Station1MacAddr4 {
    open spec fn obeys_try_from_spec() -> bool {
        true
    }

    open spec fn try_from_spec(s: State) -> Result<Station1MacAddr4, InvalidAddress> {
        match s {
            State::Station1MacAddr4(r) => Ok(r),
            _ => Err(InvalidAddress),
        }
    }
}

impl Station1MacAddr4 {
    /// Provides read access to the individual fields of the register.
    pub fn read(&self) -> (r: R<Station1MacAddr4>)
        ensures
            r.0 == *self,
    {
        R(*self)
    }

    /// Provides write access to the individual fields of the register.
    pub fn write(self) -> (w: W<Station1MacAddr4>)
        ensures
            w.0 == self,
    {
        W(self)
    }
}

impl R<Station1MacAddr4> {
    /// Read access to the `data` field.
    pub fn data(&self) -> (f: BitsR<u8>)
        ensures
            f.bits == load8(self.0@, 0xff, 0),
    {
        BitsR { bits: (self.0.bits & 0xff) >> 0u8 }
    }
}

impl W<Station1MacAddr4> {
    /// Write access to the `data` field.
    pub fn data(self) -> (f: BitsW<Station1MacAddr4>)
        ensures
            f.w == self,
            f.mask == 0xff,
            f.shift == 0,
    {
        BitsW { w: self, mask: 0xff, shift: 0 }
    }
}

/// The `Station1MacAddr5` register, at address `0x93`.
#[derive(Clone, Copy, Debug, PartialEq, Eq, Structural, Hash)]
pub struct Station1MacAddr5 {
    bits: u8,
}

impl View for Station1MacAddr5 {
    type V = u8;

    closed spec fn view(&self) -> u8 {
        self.bits
    }
}

impl Register for Station1MacAddr5 {
    open spec fn spec_address() -> Address {
        Address::Station1MacAddr5
    }

    closed spec fn spec_from_bits(bits: u8) -> Station1MacAddr5 {
        Station1MacAddr5 { bits }
    }

    proof fn lemma_from_bits(bits: u8) {
    }

    fn address() -> (a: Address) {
        Address::Station1MacAddr5
    }

    fn from_bits(bits: u8) -> (r: Station1MacAddr5) {
        Station1MacAddr5 { bits }
    }

    fn to_bits(&self) -> (b: u8) {
        self.bits
    }
}

impl Default for Station1MacAddr5 {
    fn default() -> (r: Station1MacAddr5)
        ensures
            r@ == default_bits(Address::Station1MacAddr5),
    {
        Station1MacAddr5 { bits: 0x00 }
    }
}

impl From<u8> for Station1MacAddr5 {
    fn from(bits: u8) -> (r: Station1MacAddr5) {
        Station1MacAddr5 { bits }
    }
}

impl vstd::std_specs::convert::FromSpecImpl<u8> for Station1MacAddr5 {
    open spec fn obeys_from_spec() -> bool {
        true
    }

    open spec fn from_spec(bits: u8) -> Station1MacAddr5 {
        <Station1MacAddr5 as Register>::spec_from_bits(bits)
    }
}

impl From<Station1MacAddr5> for u8 {
    fn from(r: Station1MacAddr5) -> (bits: u8) {
        r.bits
    }
}

impl vstd::std_specs::convert::FromSpecImpl<Station1MacAddr5> for u8 {
    open spec fn obeys_from_spec() -> bool {
        true
    }

    open spec fn from_spec(r: Station1MacAddr5) -> u8 {
        r@
    }
}

impl From<Station1MacAddr5> for State {
    fn from(r: Station1MacAddr5) -> (s: State) {
        State::Station1MacAddr5(r)
    }
}

impl vstd::std_specs::convert::FromSpecImpl<Station1MacAddr5> for State {
    open spec fn obeys_from_spec() -> bool {
        true
    }

    open spec fn from_spec(r: Station1MacAddr5) -> State {
        State::Station1MacAddr5(r)
    }
}

impl core::convert::TryFrom<State> for Station1MacAddr5 {
    type Error = InvalidAddress;

    fn try_from(s: State) -> (r: Result<Station1MacAddr5, InvalidAddress>) {
        match s {
            State::Station1MacAddr5(r) => Ok(r),
            _ => Err(InvalidAddress),
        }
    }
}

impl vstd::std_specs::convert::TryFromSpecImpl<State> for Station1MacAddr5 {
    open spec fn obeys_try_from_spec() -> bool {
        true
    }

    open spec fn try_from_spec(s: State) -> Result<Station1MacAddr5, InvalidAddress> {
        match s {
            State::Station1MacAddr5(r) => Ok(r),
            _ => Err(InvalidAddress),
        }
    }
}

impl Station1MacAddr5 {
    /// Provides read access to the individual fields of the register.
    pub fn read(&self) -> (r: R<Station1MacAddr5>)
        ensures
            r.0 == *self,
    {
        R(*self)
    }

    /// Provides write access to the individual fields of the register.
    pub fn write(self) -> (w: W<Station1MacAddr5>)
        ensures
            w.0 == self,
    {
        W(self)
    }
}

impl R<Station1MacAddr5> {
    /// Read access to the `data` field.
    pub fn data(&self) -> (f: BitsR<u8>)
        ensures
            f.bits == load8(self.0@, 0xff, 0),
    {
        BitsR { bits: (self.0.bits & 0xff) >> 0u8 }
    }
}

impl W<Station1MacAddr5> {
    /// Write access to the `data` field.
    pub fn data(self) -> (f: BitsW<Station1MacAddr5>)
        ensures
            f.w == self,
            f.mask == 0xff,
            f.shift == 0,
    {
        BitsW { w: self, mask: 0xff, shift: 0 }
    }
}

/// The `Station2MacAddr0` register, at address `0x94`.
#[derive(Clone, Copy, Debug, PartialEq, Eq, Structural, Hash)]
pub struct Station2MacAddr0 {
    bits: u8,
}

impl View for Station2MacAddr0 {
    type V = u8;

    closed spec fn view(&self) -> u8 {
        self.bits
    }
}

impl Register for Station2MacAddr0 {
    open spec fn spec_address() -> Address {
        Address::Station2MacAddr0
    }

    closed spec fn spec_from_bits(bits: u8) -> Station2MacAddr0 {
        Station2MacAddr0 { bits }
    }

    proof fn lemma_from_bits(bits: u8) {
    }

    fn address() -> (a: Address) {
        Address::Station2MacAddr0
    }

    fn from_bits(bits: u8) -> (r: Station2MacAddr0) {
        Station2MacAddr0 { bits }
    }

    fn to_bits(&self) -> (b: u8) {
        self.bits
    }
}

impl Default for Station2MacAddr0 {
    fn default() -> (r: Station2MacAddr0)
        ensures
            r@ == default_bits(Address::Station2MacAddr0),
    {
        Station2MacAddr0 { bits: 0x00 }
    }
}

impl From<u8> for Station2MacAddr0 {
    fn from(bits: u8) -> (r: Station2MacAddr0) {
        Station2MacAddr0 { bits }
    }
}

impl vstd::std_specs::convert::FromSpecImpl<u8> for Station2MacAddr0 {
    open spec fn obeys_from_spec() -> bool {
        true
    }

    open spec fn from_spec(bits: u8) -> Station2MacAddr0 {
        <Station2MacAddr0 as Register>::spec_from_bits(bits)
    }
}

impl From<Station2MacAddr0> for u8 {
    fn from(r: Station2MacAddr0) -> (bits: u8) {
        r.bits
    }
}

impl vstd::std_specs::convert::FromSpecImpl<Station2MacAddr0> for u8 {
    open spec fn obeys_from_spec() -> bool {
        true
    }

    open spec fn from_spec(r: Station2MacAddr0) -> u8 {
        r@
    }
}

impl From<Station2MacAddr0> for State {
    fn from(r: Station2MacAddr0) -> (s: State) {
        State::Station2MacAddr0(r)
    }
}

impl vstd::std_specs::convert::FromSpecImpl<Station2MacAddr0> for State {
    open spec fn obeys_from_spec() -> bool {
        true
    }

    open spec fn from_spec(r: Station2MacAddr0) -> State {
        State::Station2MacAddr0(r)
    }
}

impl core::convert::TryFrom<State> for Station2MacAddr0 {
    type Error = InvalidAddress;

    fn try_from(s: State) -> (r: Result<Station2MacAddr0, InvalidAddress>) {
        match s {
            State::Station2MacAddr0(r) => Ok(r),
            _ => Err(InvalidAddress),
        }
    }
}

impl vstd::std_specs::convert::TryFromSpecImpl<State> for Station2MacAddr0 {
    open spec fn obeys_try_from_spec() -> bool {
        true
    }

    open spec fn try_from_spec(s: State) -> Result<Station2MacAddr0, InvalidAddress> {
        match s {
            State::Station2MacAddr0(r) => Ok(r),
            _ => Err(InvalidAddress),
        }
    }
}

impl Station2MacAddr0 {
    /// Provides read access to the individual fields of the register.
    pub fn read(&self) -> (r: R<Station2MacAddr0>)
        ensures
            r.0 == *self,
    {
        R(*self)
    }

    /// Provides write access to the individual fields of the register.
    pub fn write(self) -> (w: W<Station2MacAddr0>)
        ensures
            w.0 == self,
    {
        W(self)
    }
}

impl R<Station2MacAddr0> {
    /// Read access to the `data` field.
    pub fn data(&self) -> (f: BitsR<u8>)
        ensures
            f.bits == load8(self.0@, 0xff, 0),
    {
        BitsR { bits: (self.0.bits & 0xff) >> 0u8 }
    }
}

impl W<Station2MacAddr0> {
    /// Write access to the `data` field.
    pub fn data(self) -> (f: BitsW<Station2MacAddr0>)
        ensures
            f.w == self,
            f.mask == 0xff,
            f.shift == 0,
    {
        BitsW { w: self, mask: 0xff, shift: 0 }
    }
}

/// The `Station2MacAddr1` register, at address `0x95`.
#[derive(Clone, Copy, Debug, PartialEq, Eq, Structural, Hash)]
pub struct Station2MacAddr1 {
    bits: u8,
}

impl View for Station2MacAddr1 {
    type V = u8;

    closed spec fn view(&self) -> u8 {
        self.bits
    }
}

impl Register for Station2MacAddr1 {
    open spec fn spec_address() -> Address {
        Address::Station2MacAddr1
    }

    closed spec fn spec_from_bits(bits: u8) -> Station2MacAddr1 {
        Station2MacAddr1 { bits }
    }

    proof fn lemma_from_bits(bits: u8) {
    }

    fn address() -> (a: Address) {
        Address::Station2MacAddr1
    }

    fn from_bits(bits: u8) -> (r: Station2MacAddr1) {
        Station2MacAddr1 { bits }
    }

    fn to_bits(&self) -> (b: u8) {
        self.bits
    }
}

impl Default for Station2MacAddr1 {
    fn default() -> (r: Station2MacAddr1)
        ensures
            r@ == default_bits(Address::Station2MacAddr1),
    {
        Station2MacAddr1 { bits: 0x00 }
    }
}

impl From<u8> for Station2MacAddr1 {
    fn from(bits: u8) -> (r: Station2MacAddr1) {
        Station2MacAddr1 { bits }
    }
}

impl vstd::std_specs::convert::FromSpecImpl<u8> for Station2MacAddr1 {
    open spec fn obeys_from_spec() -> bool {
        true
    }

    open spec fn from_spec(bits: u8) -> Station2MacAddr1 {
        <Station2MacAddr1 as Register>::spec_from_bits(bits)
    }
}

impl From<Station2MacAddr1> for u8 {
    fn from(r: Station2MacAddr1) -> (bits: u8) {
        r.bits
    }
}

impl vstd::std_specs::convert::FromSpecImpl<Station2MacAddr1> for u8 {
    open spec fn obeys_from_spec() -> bool {
        true
    }

    open spec fn from_spec(r: Station2MacAddr1) -> u8 {
        r@
    }
}

impl From<Station2MacAddr1> for State {
    fn from(r: Station2MacAddr1) -> (s: State) {
        State::Station2MacAddr1(r)
    }
}

impl vstd::std_specs::convert::FromSpecImpl<Station2MacAddr1> for State {
    open spec fn obeys_from_spec() -> bool {
        true
    }

    open spec fn from_spec(r: Station2MacAddr1) -> State {
        State::Station2MacAddr1(r)
    }
}

impl core::convert::TryFrom<State> for Station2MacAddr1 {
    type Error = InvalidAddress;

    fn try_from(s: State) -> (r: Result<Station2MacAddr1, InvalidAddress>) {
        match s {
            State::Station2MacAddr1(r) => Ok(r),
            _ => Err(InvalidAddress),
        }
    }
}

impl vstd::std_specs::convert::TryFromSpecImpl<State> for Station2MacAddr1 {
    open spec fn obeys_try_from_spec() -> bool {
        true
    }

    open spec fn try_from_spec(s: State) -> Result<Station2MacAddr1, InvalidAddress> {
        match s {
            State::Station2MacAddr1(r) => Ok(r),
            _ => Err(InvalidAddress),
        }
    }
}

impl Station2MacAddr1 {
    /// Provides read access to the individual fields of the register.
    pub fn read(&self) -> (r: R<Station2MacAddr1>)
        ensures
            r.0 == *self,
    {
        R(*self)
    }

    /// Provides write access to the individual fields of the register.
    pub fn write(self) -> (w: W<Station2MacAddr1>)
        ensures
            w.0 == self,
    {
        W(self)
    }
}

impl R<Station2MacAddr1> {
    /// Read access to the `data` field.
    pub fn data(&self) -> (f: BitsR<u8>)
        ensures
            f.bits == load8(self.0@, 0xff, 0),
    {
        BitsR { bits: (self.0.bits & 0xff) >> 0u8 }
    }
}

impl W<Station2MacAddr1> {
    /// Write access to the `data` field.
    pub fn data(self) -> (f: BitsW<Station2MacAddr1>)
        ensures
            f.w == self,
            f.mask == 0xff,
            f.shift == 0,
    {
        BitsW { w: self, mask: 0xff, shift: 0 }
    }
}

/// The `Station2MacAddr2` register, at address `0x96`.
#[derive(Clone, Copy, Debug, PartialEq, Eq, Structural, Hash)]
pub struct Station2MacAddr2 {
    bits: u8,
}

impl View for Station2MacAddr2 {
    type V = u8;

    closed spec fn view(&self) -> u8 {
        self.bits
    }
}

impl Register for Station2MacAddr2 {
    open spec fn spec_address() -> Address {
        Address::Station2MacAddr2
    }

    closed spec fn spec_from_bits(bits: u8) -> Station2MacAddr2 {
        Station2MacAddr2 { bits }
    }

    proof fn lemma_from_bits(bits: u8) {
    }

    fn address() -> (a: Address) {
        Address::Station2MacAddr2
    }

    fn from_bits(bits: u8) -> (r: Station2MacAddr2) {
        Station2MacAddr2 { bits }
    }

    fn to_bits(&self) -> (b: u8) {
        self.bits
    }
}

impl Default for Station2MacAddr2 {
    fn default() -> (r: Station2MacAddr2)
        ensures
            r@ == default_bits(Address::Station2MacAddr2),
    {
        Station2MacAddr2 { bits: 0x00 }
    }
}

impl From<u8> for Station2MacAddr2 {
    fn from(bits: u8) -> (r: Station2MacAddr2) {
        Station2MacAddr2 { bits }
    }
}

impl vstd::std_specs::convert::FromSpecImpl<u8> for Station2MacAddr2 {
    open spec fn obeys_from_spec() -> bool {
        true
    }

    open spec fn from_spec(bits: u8) -> Station2MacAddr2 {
        <Station2MacAddr2 as Register>::spec_from_bits(bits)
    }
}

impl From<Station2MacAddr2> for u8 {
    fn from(r: Station2MacAddr2) -> (bits: u8) {
        r.bits
    }
}

impl vstd::std_specs::convert::FromSpecImpl<Station2MacAddr2> for u8 {
    open spec fn obeys_from_spec() -> bool {
        true
    }

    open spec fn from_spec(r: Station2MacAddr2) -> u8 {
        r@
    }
}

impl From<Station2MacAddr2> for State {
    fn from(r: Station2MacAddr2) -> (s: State) {
        State::Station2MacAddr2(r)
    }
}

impl vstd::std_specs::convert::FromSpecImpl<Station2MacAddr2> for State {
    open spec fn obeys_from_spec() -> bool {
        true
    }

    open spec fn from_spec(r: Station2MacAddr2) -> State {
        State::Station2MacAddr2(r)
    }
}

impl core::convert::TryFrom<State> for Station2MacAddr2 {
    type Error = InvalidAddress;

    fn try_from(s: State) -> (r: Result<Station2MacAddr2, InvalidAddress>) {
        match s {
            State::Station2MacAddr2(r) => Ok(r),
            _ => Err(InvalidAddress),
        }
    }
}

impl vstd::std_specs::convert::TryFromSpecImpl<State> for Station2MacAddr2 {
    open spec fn obeys_try_from_spec() -> bool {
        true
    }

    open spec fn try_from_spec(s: State) -> Result<Station2MacAddr2, InvalidAddress> {
        match s {
            State::Station2MacAddr2(r) => Ok(r),
            _ => Err(InvalidAddress),
        }
    }
}

impl Station2MacAddr2 {
    /// Provides read access to the individual fields of the register.
    pub fn read(&self) -> (r: R<Station2MacAddr2>)
        ensures
            r.0 == *self,
    {
        R(*self)
    }

    /// Provides write access to the individual fields of the register.
    pub fn write(self) -> (w: W<Station2MacAddr2>)
        ensures
            w.0 == self,
    {
        W(self)
    }
}

impl R<Station2MacAddr2> {
    /// Read access to the `data` field.
    pub fn data(&self) -> (f: BitsR<u8>)
        ensures
            f.bits == load8(self.0@, 0xff, 0),
    {
        BitsR { bits: (self.0.bits & 0xff) >> 0u8 }
    }
}

impl W<Station2MacAddr2> {
    /// Write access to the `data` field.
    pub fn data(self) -> (f: BitsW<Station2MacAddr2>)
        ensures
            f.w == self,
            f.mask == 0xff,
            f.shift == 0,
    {
        BitsW { w: self, mask: 0xff, shift: 0 }
    }
}

/// The `Station2MacAddr3` register, at address `0x97`.
#[derive(Clone, Copy, Debug, PartialEq, Eq, Structural, Hash)]
pub struct Station2MacAddr3 {
    bits: u8,
}

impl View for Station2MacAddr3 {
    type V = u8;

    closed spec fn view(&self) -> u8 {
        self.bits
    }
}

impl Register for Station2MacAddr3 {
    open spec fn spec_address() -> Address {
        Address::Station2MacAddr3
    }

    closed spec fn spec_from_bits(bits: u8) -> Station2MacAddr3 {
        Station2MacAddr3 { bits }
    }

    proof fn lemma_from_bits(bits: u8) {
    }

    fn address() -> (a: Address) {
        Address::Station2MacAddr3
    }

    fn from_bits(bits: u8) -> (r: Station2MacAddr3) {
        Station2MacAddr3 { bits }
    }

    fn to_bits(&self) -> (b: u8) {
        self.bits
    }
}

impl Default for Station2MacAddr3 {
    fn default() -> (r: Station2MacAddr3)
        ensures
            r@ == default_bits(Address::Station2MacAddr3),
    {
        Station2MacAddr3 { bits: 0x00 }
    }
}

impl From<u8> for Station2MacAddr3 {
    fn from(bits: u8) -> (r: Station2MacAddr3) {
        Station2MacAddr3 { bits }
    }
}

impl vstd::std_specs::convert::FromSpecImpl<u8> for Station2MacAddr3 {
    open spec fn obeys_from_spec() -> bool {
        true
    }

    open spec fn from_spec(bits: u8) -> Station2MacAddr3 {
        <Station2MacAddr3 as Register>::spec_from_bits(bits)
    }
}

impl From<Station2MacAddr3> for u8 {
    fn from(r: Station2MacAddr3) -> (bits: u8) {
        r.bits
    }
}

impl vstd::std_specs::convert::FromSpecImpl<Station2MacAddr3> for u8 {
    open spec fn obeys_from_spec() -> bool {
        true
    }

    open spec fn from_spec(r: Station2MacAddr3) -> u8 {
        r@
    }
}

impl From<Station2MacAddr3> for State {
    fn from(r: Station2MacAddr3) -> (s: State) {
        State::Station2MacAddr3(r)
    }
}

impl vstd::std_specs::convert::FromSpecImpl<Station2MacAddr3> for State {
    open spec fn obeys_from_spec() -> bool {
        true
    }

    open spec fn from_spec(r: Station2MacAddr3) -> State {
        State::Station2MacAddr3(r)
    }
}

impl core::convert::TryFrom<State> for Station2MacAddr3 {
    type Error = InvalidAddress;

    fn try_from(s: State) -> (r: Result<Station2MacAddr3, InvalidAddress>) {
        match s {
            State::Station2MacAddr3(r) => Ok(r),
            _ => Err(InvalidAddress),
        }
    }
}

impl vstd::std_specs::convert::TryFromSpecImpl<State> for Station2MacAddr3 {
    open spec fn obeys_try_from_spec() -> bool {
        true
    }

    open spec fn try_from_spec(s: State) -> Result<Station2MacAddr3, InvalidAddress> {
        match s {
            State::Station2MacAddr3(r) => Ok(r),
            _ => Err(InvalidAddress),
        }
    }
}

impl Station2MacAddr3 {
    /// Provides read access to the individual fields of the register.
    pub fn read(&self) -> (r: R<Station2MacAddr3>)
        ensures
            r.0 == *self,
    {
        R(*self)
    }

    /// Provides write access to the individual fields of the register.
    pub fn write(self) -> (w: W<Station2MacAddr3>)
        ensures
            w.0 == self,
    {
        W(self)
    }
}

impl R<Station2MacAddr3> {
    /// Read access to the `data` field.
    pub fn data(&self) -> (f: BitsR<u8>)
        ensures
            f.bits == load8(self.0@, 0xff, 0),
    {
        BitsR { bits: (self.0.bits & 0xff) >> 0u8 }
    }
}

impl W<Station2MacAddr3> {
    /// Write access to the `data` field.
    pub fn data(self) -> (f: BitsW<Station2MacAddr3>)
        ensures
            f.w == self,
            f.mask == 0xff,
            f.shift == 0,
    {
        BitsW { w: self, mask: 0xff, shift: 0 }
    }
}

/// The `Station2MacAddr4` register, at address `0x98`.
#[derive(Clone, Copy, Debug, PartialEq, Eq, Structural, Hash)]
pub struct Station2MacAddr4 {
    bits: u8,
}

impl View for Station2MacAddr4 {
    type V = u8;

    closed spec fn view(&self) -> u8 {
        self.bits
    }
}

impl Register for Station2MacAddr4 {
    open spec fn spec_address() -> Address {
        Address::Station2MacAddr4
    }

    closed spec fn spec_from_bits(bits: u8) -> Station2MacAddr4 {
        Station2MacAddr4 { bits }
    }

    proof fn lemma_from_bits(bits: u8) {
    }

    fn address() -> (a: Address) {
        Address::Station2MacAddr4
    }

    fn from_bits(bits: u8) -> (r: Station2MacAddr4) {
        Station2MacAddr4 { bits }
    }

    fn to_bits(&self) -> (b: u8) {
        self.bits
    }
}

impl Default for Station2MacAddr4 {
    fn default() -> (r: Station2MacAddr4)
        ensures
            r@ == default_bits(Address::Station2MacAddr4),
    {
        Station2MacAddr4 { bits: 0x00 }
    }
}

impl From<u8> for Station2MacAddr4 {
    fn from(bits: u8) -> (r: Station2MacAddr4) {
        Station2MacAddr4 { bits }
    }
}

impl vstd::std_specs::convert::FromSpecImpl<u8> for Station2MacAddr4 {
    open spec fn obeys_from_spec() -> bool {
        true
    }

    open spec fn from_spec(bits: u8) -> Station2MacAddr4 {
        <Station2MacAddr4 as Register>::spec_from_bits(bits)
    }
}

impl From<Station2MacAddr4> for u8 {
    fn from(r: Station2MacAddr4) -> (bits: u8) {
        r.bits
    }
}

impl vstd::std_specs::convert::FromSpecImpl<Station2MacAddr4> for u8 {
    open spec fn obeys_from_spec() -> bool {
        true
    }

    open spec fn from_spec(r: Station2MacAddr4) -> u8 {
        r@
    }
}

impl From<Station2MacAddr4> for State {
    fn from(r: Station2MacAddr4) -> (s: State) {
        State::Station2MacAddr4(r)
    }
}

impl vstd::std_specs::convert::FromSpecImpl<Station2MacAddr4> for State {
    open spec fn obeys_from_spec() -> bool {
        true
    }

    open spec fn from_spec(r: Station2MacAddr4) -> State {
        State::Station2MacAddr4(r)
    }
}

impl core::convert::TryFrom<State> for Station2MacAddr4 {
    type Error = InvalidAddress;

    fn try_from(s: State) -> (r: Result<Station2MacAddr4, InvalidAddress>) {
        match s {
            State::Station2MacAddr4(r) => Ok(r),
            _ => Err(InvalidAddress),
        }
    }
}

impl vstd::std_specs::convert::TryFromSpecImpl<State> for Station2MacAddr4 {
    open spec fn obeys_try_from_spec() -> bool {
        true
    }

    open spec fn try_from_spec(s: State) -> Result<Station2MacAddr4, InvalidAddress> {
        match s {
            State::Station2MacAddr4(r) => Ok(r),
            _ => Err(InvalidAddress),
        }
    }
}

impl Station2MacAddr4 {
    /// Provides read access to the individual fields of the register.
    pub fn read(&self) -> (r: R<Station2MacAddr4>)
        ensures
            r.0 == *self,
    {
        R(*self)
    }

    /// Provides write access to the individual fields of the register.
    pub fn write(self) -> (w: W<Station2MacAddr4>)
        ensures
            w.0 == self,
    {
        W(self)
    }
}

impl R<Station2MacAddr4> {
    /// Read access to the `data` field.
    pub fn data(&self) -> (f: BitsR<u8>)
        ensures
            f.bits == load8(self.0@, 0xff, 0),
    {
        BitsR { bits: (self.0.bits & 0xff) >> 0u8 }
    }
}

impl W<Station2MacAddr4> {
    /// Write access to the `data` field.
    pub fn data(self) -> (f: BitsW<Station2MacAddr4>)
        ensures
            f.w == self,
            f.mask == 0xff,
            f.shift == 0,
    {
        BitsW { w: self, mask: 0xff, shift: 0 }
    }
}

/// The `Station2MacAddr5` register, at address `0x99`.
#[derive(Clone, Copy, Debug, PartialEq, Eq, Structural, Hash)]
pub struct Station2MacAddr5 {
    bits: u8,
}

impl View for Station2MacAddr5 {
    type V = u8;

    closed spec fn view(&self) -> u8 {
        self.bits
    }
}

impl Register for Station2MacAddr5 {
    open spec fn spec_address() -> Address {
        Address::Station2MacAddr5
    }

    closed spec fn spec_from_bits(bits: u8) -> Station2MacAddr5 {
        Station2MacAddr5 { bits }
    }

    proof fn lemma_from_bits(bits: u8) {
    }

    fn address() -> (a: Address) {
        Address::Station2MacAddr5
    }

    fn from_bits(bits: u8) -> (r: Station2MacAddr5) {
        Station2MacAddr5 { bits }
    }

    fn to_bits(&self) -> (b: u8) {
        self.bits
    }
}

impl Default for Station2MacAddr5 {
    fn default() -> (r: Station2MacAddr5)
        ensures
            r@ == default_bits(Address::Station2MacAddr5),
    {
        Station2MacAddr5 { bits: 0x00 }
    }
}

impl From<u8> for Station2MacAddr5 {
    fn from(bits: u8) -> (r: Station2MacAddr5) {
        Station2MacAddr5 { bits }
    }
}

impl vstd::std_specs::convert::FromSpecImpl<u8> for Station2MacAddr5 {
    open spec fn obeys_from_spec() -> bool {
        true
    }

    open spec fn from_spec(bits: u8) -> Station2MacAddr5 {
        <Station2MacAddr5 as Register>::spec_from_bits(bits)
    }
}

impl From<Station2MacAddr5> for u8 {
    fn from(r: Station2MacAddr5) -> (bits: u8) {
        r.bits
    }
}

impl vstd::std_specs::convert::FromSpecImpl<Station2MacAddr5> for u8 {
    open spec fn obeys_from_spec() -> bool {
        true
    }

    open spec fn from_spec(r: Station2MacAddr5) -> u8 {
        r@
    }
}

impl From<Station2MacAddr5> for State {
    fn from(r: Station2MacAddr5) -> (s: State) {
        State::Station2MacAddr5(r)
    }
}

impl vstd::std_specs::convert::FromSpecImpl<Station2MacAddr5> for State {
    open spec fn obeys_from_spec() -> bool {
        true
    }

    open spec fn from_spec(r: Station2MacAddr5) -> State {
        State::Station2MacAddr5(r)
    }
}

impl core::convert::TryFrom<State> for Station2MacAddr5 {
    type Error = InvalidAddress;

    fn try_from(s: State) -> (r: Result<Station2MacAddr5, InvalidAddress>) {
        match s {
            State::Station2MacAddr5(r) => Ok(r),
            _ => Err(InvalidAddress),
        }
    }
}

impl vstd::std_specs::convert::TryFromSpecImpl<State> for Station2MacAddr5 {
    open spec fn obeys_try_from_spec() -> bool {
        true
    }

    open spec fn try_from_spec(s: State) -> Result<Station2MacAddr5, InvalidAddress> {
        match s {
            State::Station2MacAddr5(r) => Ok(r),
            _ => Err(InvalidAddress),
        }
    }
}

impl Station2MacAddr5 {
    /// Provides read access to the individual fields of the register.
    pub fn read(&self) -> (r: R<Station2MacAddr5>)
        ensures
            r.0 == *self,
    {
        R(*self)
    }

    /// Provides write access to the individual fields of the register.
    pub fn write(self) -> (w: W<Station2MacAddr5>)
        ensures
            w.0 == self,
    {
        W(self)
    }
}

impl R<Station2MacAddr5> {
    /// Read access to the `data` field.
    pub fn data(&self) -> (f: BitsR<u8>)
        ensures
            f.bits == load8(self.0@, 0xff, 0),
    {
        BitsR { bits: (self.0.bits & 0xff) >> 0u8 }
    }
}

impl W<Station2MacAddr5> {
    /// Write access to the `data` field.
    pub fn data(self) -> (f: BitsW<Station2MacAddr5>)
        ensures
            f.w == self,
            f.mask == 0xff,
            f.shift == 0,
    {
        BitsW { w: self, mask: 0xff, shift: 0 }
    }
}

/// The `Mode` register, at address `0xa6`.
#[derive(Clone, Copy, Debug, PartialEq, Eq, Structural, Hash)]
pub struct Mode {
    bits: u8,
}

impl View for Mode {
    type V = u8;

    closed spec fn view(&self) -> u8 {
        self.bits
    }
}

impl Register for Mode {
    open spec fn spec_address() -> Address {
        Address::Mode
    }

    closed spec fn spec_from_bits(bits: u8) -> Mode {
        Mode { bits }
    }

    proof fn lemma_from_bits(bits: u8) {
    }

    fn address() -> (a: Address) {
        Address::Mode
    }

    fn from_bits(bits: u8) -> (r: Mode) {
        Mode { bits }
    }

    fn to_bits(&self) -> (b: u8) {
        self.bits
    }
}

impl Default for Mode {
    fn default() -> (r: Mode)
        ensures
            r@ == default_bits(Address::Mode),
    {
        Mode { bits: 0x00 }
    }
}

impl From<u8> for Mode {
    fn from(bits: u8) -> (r: Mode) {
        Mode { bits }
    }
}

impl vstd::std_specs::convert::FromSpecImpl<u8> for Mode {
    open spec fn obeys_from_spec() -> bool {
        true
    }

    open spec fn from_spec(bits: u8) -> Mode {
        <Mode as Register>::spec_from_bits(bits)
    }
}

impl From<Mode> for u8 {
    fn from(r: Mode) -> (bits: u8) {
        r.bits
    }
}

impl vstd::std_specs::convert::FromSpecImpl<Mode> for u8 {
    open spec fn obeys_from_spec() -> bool {
        true
    }

    open spec fn from_spec(r: Mode) -> u8 {
        r@
    }
}

impl From<Mode> for State {
    fn from(r: Mode) -> (s: State) {
        State::Mode(r)
    }
}

impl vstd::std_specs::convert::FromSpecImpl<Mode> for State {
    open spec fn obeys_from_spec() -> bool {
        true
    }

    open spec fn from_spec(r: Mode) -> State {
        State::Mode(r)
    }
}

impl core::convert::TryFrom<State> for Mode {
    type Error = InvalidAddress;

    fn try_from(s: State) -> (r: Result<Mode, InvalidAddress>) {
        match s {
            State::Mode(r) => Ok(r),
            _ => Err(InvalidAddress),
        }
    }
}

impl vstd::std_specs::convert::TryFromSpecImpl<State> for Mode {
    open spec fn obeys_try_from_spec() -> bool {
        true
    }

    open spec fn try_from_spec(s: State) -> Result<Mode, InvalidAddress> {
        match s {
            State::Mode(r) => Ok(r),
            _ => Err(InvalidAddress),
        }
    }
}

impl Mode {
    /// Provides read access to the individual fields of the register.
    pub fn read(&self) -> (r: R<Mode>)
        ensures
            r.0 == *self,
    {
        R(*self)
    }

    /// Provides write access to the individual fields of the register.
    pub fn write(self) -> (w: W<Mode>)
        ensures
            w.0 == self,
    {
        W(self)
    }
}

impl R<Mode> {
    /// Read access to the `data` field.
    pub fn data(&self) -> (f: BitsR<u8>)
        ensures
            f.bits == load8(self.0@, 0xff, 0),
    {
        BitsR { bits: (self.0.bits & 0xff) >> 0u8 }
    }
}

/// The `HighPriorityPacketBufferQ3` register, at address `0xa7`.
#[derive(Clone, Copy, Debug, PartialEq, Eq, Structural, Hash)]
pub struct HighPriorityPacketBufferQ3 {
    bits: u8,
}

impl View for HighPriorityPacketBufferQ3 {
    type V = u8;

    closed spec fn view(&self) -> u8 {
        self.bits
    }
}

impl Register for HighPriorityPacketBufferQ3 {
    open spec fn spec_address() -> Address {
        Address::HighPriorityPacketBufferQ3
    }

    closed spec fn spec_from_bits(bits: u8) -> HighPriorityPacketBufferQ3 {
        HighPriorityPacketBufferQ3 { bits }
    }

    proof fn lemma_from_bits(bits: u8) {
    }

    fn address() -> (a: Address) {
        Address::HighPriorityPacketBufferQ3
    }

    fn from_bits(bits: u8) -> (r: HighPriorityPacketBufferQ3) {
        HighPriorityPacketBufferQ3 { bits }
    }

    fn to_bits(&self) -> (b: u8) {
        self.bits
    }
}

impl Default for HighPriorityPacketBufferQ3 {
    fn default() -> (r: HighPriorityPacketBufferQ3)
        ensures
            r@ == default_bits(Address::HighPriorityPacketBufferQ3),
    {
        HighPriorityPacketBufferQ3 { bits: 0x45 }
    }
}

impl From<u8> for HighPriorityPacketBufferQ3 {
    fn from(bits: u8) -> (r: HighPriorityPacketBufferQ3) {
        HighPriorityPacketBufferQ3 { bits }
    }
}

impl vstd::std_specs::convert::FromSpecImpl<u8> for HighPriorityPacketBufferQ3 {
    open spec fn obeys_from_spec() -> bool {
        true
    }

    open spec fn from_spec(bits: u8) -> HighPriorityPacketBufferQ3 {
        <HighPriorityPacketBufferQ3 as Register>::spec_from_bits(bits)
    }
}

impl From<HighPriorityPacketBufferQ3> for u8 {
    fn from(r: HighPriorityPacketBufferQ3) -> (bits: u8) {
        r.bits
    }
}

impl vstd::std_specs::convert::FromSpecImpl<HighPriorityPacketBufferQ3> for u8 {
    open spec fn obeys_from_spec() -> bool {
        true
    }

    open spec fn from_spec(r: HighPriorityPacketBufferQ3) -> u8 {
        r@
    }
}

impl From<HighPriorityPacketBufferQ3> for State {
    fn from(r: HighPriorityPacketBufferQ3) -> (s: State) {
        State::HighPriorityPacketBufferQ3(r)
    }
}

impl vstd::std_specs::convert::FromSpecImpl<HighPriorityPacketBufferQ3> for State {
    open spec fn obeys_from_spec() -> bool {
        true
    }

    open spec fn from_spec(r: HighPriorityPacketBufferQ3) -> State {
        State::HighPriorityPacketBufferQ3(r)
    }
}

impl core::convert::TryFrom<State> for HighPriorityPacketBufferQ3 {
    type Error = InvalidAddress;

    fn try_from(s: State) -> (r: Result<HighPriorityPacketBufferQ3, InvalidAddress>) {
        match s {
            State::HighPriorityPacketBufferQ3(r) => Ok(r),
            _ => Err(InvalidAddress),
        }
    }
}

impl vstd::std_specs::convert::TryFromSpecImpl<State> for HighPriorityPacketBufferQ3 {
    open spec fn obeys_try_from_spec() -> bool {
        true
    }

    open spec fn try_from_spec(s: State) -> Result<HighPriorityPacketBufferQ3, InvalidAddress> {
        match s {
            State::HighPriorityPacketBufferQ3(r) => Ok(r),
            _ => Err(InvalidAddress),
        }
    }
}

impl HighPriorityPacketBufferQ3 {
    /// Provides read access to the individual fields of the register.
    pub fn read(&self) -> (r: R<HighPriorityPacketBufferQ3>)
        ensures
            r.0 == *self,
    {
        R(*self)
    }

    /// Provides write access to the individual fields of the register.
    pub fn write(self) -> (w: W<HighPriorityPacketBufferQ3>)
        ensures
            w.0 == self,
    {
        W(self)
    }
}

impl R<HighPriorityPacketBufferQ3> {
    /// Read access to the `data` field.
    pub fn data(&self) -> (f: BitsR<u8>)
        ensures
            f.bits == load8(self.0@, 0xff, 0),
    {
        BitsR { bits: (self.0.bits & 0xff) >> 0u8 }
    }
}

/// The `HighPriorityPacketBufferQ2` register, at address `0xa8`.
#[derive(Clone, Copy, Debug, PartialEq, Eq, Structural, Hash)]
pub struct HighPriorityPacketBufferQ2 {
    bits: u8,
}

impl View for HighPriorityPacketBufferQ2 {
    type V = u8;

    closed spec fn view(&self) -> u8 {
        self.bits
    }
}

impl Register for HighPriorityPacketBufferQ2 {
    open spec fn spec_address() -> Address {
        Address::HighPriorityPacketBufferQ2
    }

    closed spec fn spec_from_bits(bits: u8) -> HighPriorityPacketBufferQ2 {
        HighPriorityPacketBufferQ2 { bits }
    }

    proof fn lemma_from_bits(bits: u8) {
    }

    fn address() -> (a: Address) {
        Address::HighPriorityPacketBufferQ2
    }

    fn from_bits(bits: u8) -> (r: HighPriorityPacketBufferQ2) {
        HighPriorityPacketBufferQ2 { bits }
    }

    fn to_bits(&self) -> (b: u8) {
        self.bits
    }
}

impl Default for HighPriorityPacketBufferQ2 {
    fn default() -> (r: HighPriorityPacketBufferQ2)
        ensures
            r@ == default_bits(Address::HighPriorityPacketBufferQ2),
    {
        HighPriorityPacketBufferQ2 { bits: 0x35 }
    }
}

impl From<u8> for HighPriorityPacketBufferQ2 {
    fn from(bits: u8) -> (r: HighPriorityPacketBufferQ2) {
        HighPriorityPacketBufferQ2 { bits }
    }
}

impl vstd::std_specs::convert::FromSpecImpl<u8> for HighPriorityPacketBufferQ2 {
    open spec fn obeys_from_spec() -> bool {
        true
    }

    open spec fn from_spec(bits: u8) -> HighPriorityPacketBufferQ2 {
        <HighPriorityPacketBufferQ2 as Register>::spec_from_bits(bits)
    }
}

impl From<HighPriorityPacketBufferQ2> for u8 {
    fn from(r: HighPriorityPacketBufferQ2) -> (bits: u8) {
        r.bits
    }
}

impl vstd::std_specs::convert::FromSpecImpl<HighPriorityPacketBufferQ2> for u8 {
    open spec fn obeys_from_spec() -> bool {
        true
    }

    open spec fn from_spec(r: HighPriorityPacketBufferQ2) -> u8 {
        r@
    }
}

impl From<HighPriorityPacketBufferQ2> for State {
    fn from(r: HighPriorityPacketBufferQ2) -> (s: State) {
        State::HighPriorityPacketBufferQ2(r)
    }
}

impl vstd::std_specs::convert::FromSpecImpl<HighPriorityPacketBufferQ2> for State {
    open spec fn obeys_from_spec() -> bool {
        true
    }

    open spec fn from_spec(r: HighPriorityPacketBufferQ2) -> State {
        State::HighPriorityPacketBufferQ2(r)
    }
}

impl core::convert::TryFrom<State> for HighPriorityPacketBufferQ2 {
    type Error = InvalidAddress;

    fn try_from(s: State) -> (r: Result<HighPriorityPacketBufferQ2, InvalidAddress>) {
        match s {
            State::HighPriorityPacketBufferQ2(r) => Ok(r),
            _ => Err(InvalidAddress),
        }
    }
}

impl vstd::std_specs::convert::TryFromSpecImpl<State> for HighPriorityPacketBufferQ2 {
    open spec fn obeys_try_from_spec() -> bool {
        true
    }

    open spec fn try_from_spec(s: State) -> Result<HighPriorityPacketBufferQ2, InvalidAddress> {
        match s {
            State::HighPriorityPacketBufferQ2(r) => Ok(r),
            _ => Err(InvalidAddress),
        }
    }
}

impl HighPriorityPacketBufferQ2 {
    /// Provides read access to the individual fields of the register.
    pub fn read(&self) -> (r: R<HighPriorityPacketBufferQ2>)
        ensures
            r.0 == *self,
    {
        R(*self)
    }

    /// Provides write access to the individual fields of the register.
    pub fn write(self) -> (w: W<HighPriorityPacketBufferQ2>)
        ensures
            w.0 == self,
    {
        W(self)
    }
}

impl R<HighPriorityPacketBufferQ2> {
    /// Read access to the `data` field.
    pub fn data(&self) -> (f: BitsR<u8>)
        ensures
            f.bits == load8(self.0@, 0xff, 0),
    {
        BitsR { bits: (self.0.bits & 0xff) >> 0u8 }
    }
}

/// The `HighPriorityPacketBufferQ1` register, at address `0xa9`.
#[derive(Clone, Copy, Debug, PartialEq, Eq, Structural, Hash)]
pub struct HighPriorityPacketBufferQ1 {
    bits: u8,
}

impl View for HighPriorityPacketBufferQ1 {
    type V = u8;

    closed spec fn view(&self) -> u8 {
        self.bits
    }
}

impl Register for HighPriorityPacketBufferQ1 {
    open spec fn spec_address() -> Address {
        Address::HighPriorityPacketBufferQ1
    }

    closed spec fn spec_from_bits(bits: u8) -> HighPriorityPacketBufferQ1 {
        HighPriorityPacketBufferQ1 { bits }
    }

    proof fn lemma_from_bits(bits: u8) {
    }

    fn address() -> (a: Address) {
        Address::HighPriorityPacketBufferQ1
    }

    fn from_bits(bits: u8) -> (r: HighPriorityPacketBufferQ1) {
        HighPriorityPacketBufferQ1 { bits }
    }

    fn to_bits(&self) -> (b: u8) {
        self.bits
    }
}

impl Default for HighPriorityPacketBufferQ1 {
    fn default() -> (r: HighPriorityPacketBufferQ1)
        ensures
            r@ == default_bits(Address::HighPriorityPacketBufferQ1),
    {
        HighPriorityPacketBufferQ1 { bits: 0x25 }
    }
}

impl From<u8> for HighPriorityPacketBufferQ1 {
    fn from(bits: u8) -> (r: HighPriorityPacketBufferQ1) {
        HighPriorityPacketBufferQ1 { bits }
    }
}

impl vstd::std_specs::convert::FromSpecImpl<u8> for HighPriorityPacketBufferQ1 {
    open spec fn obeys_from_spec() -> bool {
        true
    }

    open spec fn from_spec(bits: u8) -> HighPriorityPacketBufferQ1 {
        <HighPriorityPacketBufferQ1 as Register>::spec_from_bits(bits)
    }
}

impl From<HighPriorityPacketBufferQ1> for u8 {
    fn from(r: HighPriorityPacketBufferQ1) -> (bits: u8) {
        r.bits
    }
}

impl vstd::std_specs::convert::FromSpecImpl<HighPriorityPacketBufferQ1> for u8 {
    open spec fn obeys_from_spec() -> bool {
        true
    }

    open spec fn from_spec(r: HighPriorityPacketBufferQ1) -> u8 {
        r@
    }
}

impl From<HighPriorityPacketBufferQ1> for State {
    fn from(r: HighPriorityPacketBufferQ1) -> (s: State) {
        State::HighPriorityPacketBufferQ1(r)
    }
}

impl vstd::std_specs::convert::FromSpecImpl<HighPriorityPacketBufferQ1> for State {
    open spec fn obeys_from_spec() -> bool {
        true
    }

    open spec fn from_spec(r: HighPriorityPacketBufferQ1) -> State {
        State::HighPriorityPacketBufferQ1(r)
    }
}

impl core::convert::TryFrom<State> for HighPriorityPacketBufferQ1 {
    type Error = InvalidAddress;

    fn try_from(s: State) -> (r: Result<HighPriorityPacketBufferQ1, InvalidAddress>) {
        match s {
            State::HighPriorityPacketBufferQ1(r) => Ok(r),
            _ => Err(InvalidAddress),
        }
    }
}

impl vstd::std_specs::convert::TryFromSpecImpl<State> for HighPriorityPacketBufferQ1 {
    open spec fn obeys_try_from_spec() -> bool {
        true
    }

    open spec fn try_from_spec(s: State) -> Result<HighPriorityPacketBufferQ1, InvalidAddress> {
        match s {
            State::HighPriorityPacketBufferQ1(r) => Ok(r),
            _ => Err(InvalidAddress),
        }
    }
}

impl HighPriorityPacketBufferQ1 {
    /// Provides read access to the individual fields of the register.
    pub fn read(&self) -> (r: R<HighPriorityPacketBufferQ1>)
        ensures
            r.0 == *self,
    {
        R(*self)
    }

    /// Provides write access to the individual fields of the register.
    pub fn write(self) -> (w: W<HighPriorityPacketBufferQ1>)
        ensures
            w.0 == self,
    {
        W(self)
    }
}

impl R<HighPriorityPacketBufferQ1> {
    /// Read access to the `data` field.
    pub fn data(&self) -> (f: BitsR<u8>)
        ensures
            f.bits == load8(self.0@, 0xff, 0),
    {
        BitsR { bits: (self.0.bits & 0xff) >> 0u8 }
    }
}

/// The `HighPriorityPacketBufferQ0` register, at address `0xaa`.
#[derive(Clone, Copy, Debug, PartialEq, Eq, Structural, Hash)]
pub struct HighPriorityPacketBufferQ0 {
    bits: u8,
}

impl View for HighPriorityPacketBufferQ0 {
    type V = u8;

    closed spec fn view(&self) -> u8 {
        self.bits
    }
}

impl Register for HighPriorityPacketBufferQ0 {
    open spec fn spec_address() -> Address {
        Address::HighPriorityPacketBufferQ0
    }

    closed spec fn spec_from_bits(bits: u8) -> HighPriorityPacketBufferQ0 {
        HighPriorityPacketBufferQ0 { bits }
    }

    proof fn lemma_from_bits(bits: u8) {
    }

    fn address() -> (a: Address) {
        Address::HighPriorityPacketBufferQ0
    }

    fn from_bits(bits: u8) -> (r: HighPriorityPacketBufferQ0) {
        HighPriorityPacketBufferQ0 { bits }
    }

    fn to_bits(&self) -> (b: u8) {
        self.bits
    }
}

impl Default for HighPriorityPacketBufferQ0 {
    fn default() -> (r: HighPriorityPacketBufferQ0)
        ensures
            r@ == default_bits(Address::HighPriorityPacketBufferQ0),
    {
        HighPriorityPacketBufferQ0 { bits: 0x15 }
    }
}

impl From<u8> for HighPriorityPacketBufferQ0 {
    fn from(bits: u8) -> (r: HighPriorityPacketBufferQ0) {
        HighPriorityPacketBufferQ0 { bits }
    }
}

impl vstd::std_specs::convert::FromSpecImpl<u8> for HighPriorityPacketBufferQ0 {
    open spec fn obeys_from_spec() -> bool {
        true
    }

    open spec fn from_spec(bits: u8) -> HighPriorityPacketBufferQ0 {
        <HighPriorityPacketBufferQ0 as Register>::spec_from_bits(bits)
    }
}

impl From<HighPriorityPacketBufferQ0> for u8 {
    fn from(r: HighPriorityPacketBufferQ0) -> (bits: u8) {
        r.bits
    }
}

impl vstd::std_specs::convert::FromSpecImpl<HighPriorityPacketBufferQ0> for u8 {
    open spec fn obeys_from_spec() -> bool {
        true
    }

    open spec fn from_spec(r: HighPriorityPacketBufferQ0) -> u8 {
        r@
    }
}

impl From<HighPriorityPacketBufferQ0> for State {
    fn from(r: HighPriorityPacketBufferQ0) -> (s: State) {
        State::HighPriorityPacketBufferQ0(r)
    }
}

impl vstd::std_specs::convert::FromSpecImpl<HighPriorityPacketBufferQ0> for State {
    open spec fn obeys_from_spec() -> bool {
        true
    }

    open spec fn from_spec(r: HighPriorityPacketBufferQ0) -> State {
        State::HighPriorityPacketBufferQ0(r)
    }
}

impl core::convert::TryFrom<State> for HighPriorityPacketBufferQ0 {
    type Error = InvalidAddress;

    fn try_from(s: State) -> (r: Result<HighPriorityPacketBufferQ0, InvalidAddress>) {
        match s {
            State::HighPriorityPacketBufferQ0(r) => Ok(r),
            _ => Err(InvalidAddress),
        }
    }
}

impl vstd::std_specs::convert::TryFromSpecImpl<State> for HighPriorityPacketBufferQ0 {
    open spec fn obeys_try_from_spec() -> bool {
        true
    }

    open spec fn try_from_spec(s: State) -> Result<HighPriorityPacketBufferQ0, InvalidAddress> {
        match s {
            State::HighPriorityPacketBufferQ0(r) => Ok(r),
            _ => Err(InvalidAddress),
        }
    }
}

impl HighPriorityPacketBufferQ0 {
    /// Provides read access to the individual fields of the register.
    pub fn read(&self) -> (r: R<HighPriorityPacketBufferQ0>)
        ensures
            r.0 == *self,
    {
        R(*self)
    }

    /// Provides write access to the individual fields of the register.
    pub fn write(self) -> (w: W<HighPriorityPacketBufferQ0>)
        ensures
            w.0 == self,
    {
        W(self)
    }
}

impl R<HighPriorityPacketBufferQ0> {
    /// Read access to the `data` field.
    pub fn data(&self) -> (f: BitsR<u8>)
        ensures
            f.bits == load8(self.0@, 0xff, 0),
    {
        BitsR { bits: (self.0.bits & 0xff) >> 0u8 }
    }
}

/// The `PmUsageFlowCtrlSelectMode1` register, at address `0xab`.
#[derive(Clone, Copy, Debug, PartialEq, Eq, Structural, Hash)]
pub struct PmUsageFlowCtrlSelectMode1 {
    bits: u8,
}

impl View for PmUsageFlowCtrlSelectMode1 {
    type V = u8;

    closed spec fn view(&self) -> u8 {
        self.bits
    }
}

impl Register for PmUsageFlowCtrlSelectMode1 {
    open spec fn spec_address() -> Address {
        Address::PmUsageFlowCtrlSelectMode1
    }

    closed spec fn spec_from_bits(bits: u8) -> PmUsageFlowCtrlSelectMode1 {
        PmUsageFlowCtrlSelectMode1 { bits }
    }

    proof fn lemma_from_bits(bits: u8) {
    }

    fn address() -> (a: Address) {
        Address::PmUsageFlowCtrlSelectMode1
    }

    fn from_bits(bits: u8) -> (r: PmUsageFlowCtrlSelectMode1) {
        PmUsageFlowCtrlSelectMode1 { bits }
    }

    fn to_bits(&self) -> (b: u8) {
        self.bits
    }
}

impl Default for PmUsageFlowCtrlSelectMode1 {
    fn default() -> (r: PmUsageFlowCtrlSelectMode1)
        ensures
            r@ == default_bits(Address::PmUsageFlowCtrlSelectMode1),
    {
        PmUsageFlowCtrlSelectMode1 { bits: 0x00 }
    }
}

impl From<u8> for PmUsageFlowCtrlSelectMode1 {
    fn from(bits: u8) -> (r: PmUsageFlowCtrlSelectMode1) {
        PmUsageFlowCtrlSelectMode1 { bits }
    }
}

impl vstd::std_specs::convert::FromSpecImpl<u8> for PmUsageFlowCtrlSelectMode1 {
    open spec fn obeys_from_spec() -> bool {
        true
    }

    open spec fn from_spec(bits: u8) -> PmUsageFlowCtrlSelectMode1 {
        <PmUsageFlowCtrlSelectMode1 as Register>::spec_from_bits(bits)
    }
}

impl From<PmUsageFlowCtrlSelectMode1> for u8 {
    fn from(r: PmUsageFlowCtrlSelectMode1) -> (bits: u8) {
        r.bits
    }
}

impl vstd::std_specs::convert::FromSpecImpl<PmUsageFlowCtrlSelectMode1> for u8 {
    open spec fn obeys_from_spec() -> bool {
        true
    }

    open spec fn from_spec(r: PmUsageFlowCtrlSelectMode1) -> u8 {
        r@
    }
}

impl From<PmUsageFlowCtrlSelectMode1> for State {
    fn from(r: PmUsageFlowCtrlSelectMode1) -> (s: State) {
        State::PmUsageFlowCtrlSelectMode1(r)
    }
}

impl vstd::std_specs::convert::FromSpecImpl<PmUsageFlowCtrlSelectMode1> for State {
    open spec fn obeys_from_spec() -> bool {
        true
    }

    open spec fn from_spec(r: PmUsageFlowCtrlSelectMode1) -> State {
        State::PmUsageFlowCtrlSelectMode1(r)
    }
}

impl core::convert::TryFrom<State> for PmUsageFlowCtrlSelectMode1 {
    type Error = InvalidAddress;

    fn try_from(s: State) -> (r: Result<PmUsageFlowCtrlSelectMode1, InvalidAddress>) {
        match s {
            State::PmUsageFlowCtrlSelectMode1(r) => Ok(r),
            _ => Err(InvalidAddress),
        }
    }
}

impl vstd::std_specs::convert::TryFromSpecImpl<State> for PmUsageFlowCtrlSelectMode1 {
    open spec fn obeys_try_from_spec() -> bool {
        true
    }

    open spec fn try_from_spec(s: State) -> Result<PmUsageFlowCtrlSelectMode1, InvalidAddress> {
        match s {
            State::PmUsageFlowCtrlSelectMode1(r) => Ok(r),
            _ => Err(InvalidAddress),
        }
    }
}

impl PmUsageFlowCtrlSelectMode1 {
    /// Provides read access to the individual fields of the register.
    pub fn read(&self) -> (r: R<PmUsageFlowCtrlSelectMode1>)
        ensures
            r.0 == *self,
    {
        R(*self)
    }

    /// Provides write access to the individual fields of the register.
    pub fn write(self) -> (w: W<PmUsageFlowCtrlSelectMode1>)
        ensures
            w.0 == self,
    {
        W(self)
    }
}

impl R<PmUsageFlowCtrlSelectMode1> {
    /// Read access to the `data` field.
    pub fn data(&self) -> (f: BitsR<u8>)
        ensures
            f.bits == load8(self.0@, 0xff, 0),
    {
        BitsR { bits: (self.0.bits & 0xff) >> 0u8 }
    }
}

/// The `PmUsageFlowCtrlSelectMode2` register, at address `0xac`.
#[derive(Clone, Copy, Debug, PartialEq, Eq, Structural, Hash)]
pub struct PmUsageFlowCtrlSelectMode2 {
    bits: u8,
}

impl View for PmUsageFlowCtrlSelectMode2 {
    type V = u8;

    closed spec fn view(&self) -> u8 {
        self.bits
    }
}

impl Register for PmUsageFlowCtrlSelectMode2 {
    open spec fn spec_address() -> Address {
        Address::PmUsageFlowCtrlSelectMode2
    }

    closed spec fn spec_from_bits(bits: u8) -> PmUsageFlowCtrlSelectMode2 {
        PmUsageFlowCtrlSelectMode2 { bits }
    }

    proof fn lemma_from_bits(bits: u8) {
    }

    fn address() -> (a: Address) {
        Address::PmUsageFlowCtrlSelectMode2
    }

    fn from_bits(bits: u8) -> (r: PmUsageFlowCtrlSelectMode2) {
        PmUsageFlowCtrlSelectMode2 { bits }
    }

    fn to_bits(&self) -> (b: u8) {
        self.bits
    }
}

impl Default for PmUsageFlowCtrlSelectMode2 {
    fn default() -> (r: PmUsageFlowCtrlSelectMode2)
        ensures
            r@ == default_bits(Address::PmUsageFlowCtrlSelectMode2),
    {
        PmUsageFlowCtrlSelectMode2 { bits: 0x00 }
    }
}

impl From<u8> for PmUsageFlowCtrlSelectMode2 {
    fn from(bits: u8) -> (r: PmUsageFlowCtrlSelectMode2) {
        PmUsageFlowCtrlSelectMode2 { bits }
    }
}

impl vstd::std_specs::convert::FromSpecImpl<u8> for PmUsageFlowCtrlSelectMode2 {
    open spec fn obeys_from_spec() -> bool {
        true
    }

    open spec fn from_spec(bits: u8) -> PmUsageFlowCtrlSelectMode2 {
        <PmUsageFlowCtrlSelectMode2 as Register>::spec_from_bits(bits)
    }
}

impl From<PmUsageFlowCtrlSelectMode2> for u8 {
    fn from(r: PmUsageFlowCtrlSelectMode2) -> (bits: u8) {
        r.bits
    }
}

impl vstd::std_specs::convert::FromSpecImpl<PmUsageFlowCtrlSelectMode2> for u8 {
    open spec fn obeys_from_spec() -> bool {
        true
    }

    open spec fn from_spec(r: PmUsageFlowCtrlSelectMode2) -> u8 {
        r@
    }
}

impl From<PmUsageFlowCtrlSelectMode2> for State {
    fn from(r: PmUsageFlowCtrlSelectMode2) -> (s: State) {
        State::PmUsageFlowCtrlSelectMode2(r)
    }
}

impl vstd::std_specs::convert::FromSpecImpl<PmUsageFlowCtrlSelectMode2> for State {
    open spec fn obeys_from_spec() -> bool {
        true
    }

    open spec fn from_spec(r: PmUsageFlowCtrlSelectMode2) -> State {
        State::PmUsageFlowCtrlSelectMode2(r)
    }
}

impl core::convert::TryFrom<State> for PmUsageFlowCtrlSelectMode2 {
    type Error = InvalidAddress;

    fn try_from(s: State) -> (r: Result<PmUsageFlowCtrlSelectMode2, InvalidAddress>) {
        match s {
            State::PmUsageFlowCtrlSelectMode2(r) => Ok(r),
            _ => Err(InvalidAddress),
        }
    }
}

impl vstd::std_specs::convert::TryFromSpecImpl<State> for PmUsageFlowCtrlSelectMode2 {
    open spec fn obeys_try_from_spec() -> bool {
        true
    }

    open spec fn try_from_spec(s: State) -> Result<PmUsageFlowCtrlSelectMode2, InvalidAddress> {
        match s {
            State::PmUsageFlowCtrlSelectMode2(r) => Ok(r),
            _ => Err(InvalidAddress),
        }
    }
}

impl PmUsageFlowCtrlSelectMode2 {
    /// Provides read access to the individual fields of the register.
    pub fn read(&self) -> (r: R<PmUsageFlowCtrlSelectMode2>)
        ensures
            r.0 == *self,
    {
        R(*self)
    }

    /// Provides write access to the individual fields of the register.
    pub fn write(self) -> (w: W<PmUsageFlowCtrlSelectMode2>)
        ensures
            w.0 == self,
    {
        W(self)
    }
}

impl R<PmUsageFlowCtrlSelectMode2> {
    /// Read access to the `data` field.
    pub fn data(&self) -> (f: BitsR<u8>)
        ensures
            f.bits == load8(self.0@, 0xff, 0),
    {
        BitsR { bits: (self.0.bits & 0xff) >> 0u8 }
    }
}

/// The `PmUsageFlowCtrlSelectMode3` register, at address `0xad`.
#[derive(Clone, Copy, Debug, PartialEq, Eq, Structural, Hash)]
pub struct PmUsageFlowCtrlSelectMode3 {
    bits: u8,
}

impl View for PmUsageFlowCtrlSelectMode3 {
    type V = u8;

    closed spec fn view(&self) -> u8 {
        self.bits
    }
}

impl Register for PmUsageFlowCtrlSelectMode3 {
    open spec fn spec_address() -> Address {
        Address::PmUsageFlowCtrlSelectMode3
    }

    closed spec fn spec_from_bits(bits: u8) -> PmUsageFlowCtrlSelectMode3 {
        PmUsageFlowCtrlSelectMode3 { bits }
    }

    proof fn lemma_from_bits(bits: u8) {
    }

    fn address() -> (a: Address) {
        Address::PmUsageFlowCtrlSelectMode3
    }

    fn from_bits(bits: u8) -> (r: PmUsageFlowCtrlSelectMode3) {
        PmUsageFlowCtrlSelectMode3 { bits }
    }

    fn to_bits(&self) -> (b: u8) {
        self.bits
    }
}

impl Default for PmUsageFlowCtrlSelectMode3 {
    fn default() -> (r: PmUsageFlowCtrlSelectMode3)
        ensures
            r@ == default_bits(Address::PmUsageFlowCtrlSelectMode3),
    {
        PmUsageFlowCtrlSelectMode3 { bits: 0x00 }
    }
}

impl From<u8> for PmUsageFlowCtrlSelectMode3 {
    fn from(bits: u8) -> (r: PmUsageFlowCtrlSelectMode3) {
        PmUsageFlowCtrlSelectMode3 { bits }
    }
}

impl vstd::std_specs::convert::FromSpecImpl<u8> for PmUsageFlowCtrlSelectMode3 {
    open spec fn obeys_from_spec() -> bool {
        true
    }

    open spec fn from_spec(bits: u8) -> PmUsageFlowCtrlSelectMode3 {
        <PmUsageFlowCtrlSelectMode3 as Register>::spec_from_bits(bits)
    }
}

impl From<PmUsageFlowCtrlSelectMode3> for u8 {
    fn from(r: PmUsageFlowCtrlSelectMode3) -> (bits: u8) {
        r.bits
    }
}

impl vstd::std_specs::convert::FromSpecImpl<PmUsageFlowCtrlSelectMode3> for u8 {
    open spec fn obeys_from_spec() -> bool {
        true
    }

    open spec fn from_spec(r: PmUsageFlowCtrlSelectMode3) -> u8 {
        r@
    }
}

impl From<PmUsageFlowCtrlSelectMode3> for State {
    fn from(r: PmUsageFlowCtrlSelectMode3) -> (s: State) {
        State::PmUsageFlowCtrlSelectMode3(r)
    }
}

impl vstd::std_specs::convert::FromSpecImpl<PmUsageFlowCtrlSelectMode3> for State {
    open spec fn obeys_from_spec() -> bool {
        true
    }

    open spec fn from_spec(r: PmUsageFlowCtrlSelectMode3) -> State {
        State::PmUsageFlowCtrlSelectMode3(r)
    }
}

impl core::convert::TryFrom<State> for PmUsageFlowCtrlSelectMode3 {
    type Error = InvalidAddress;

    fn try_from(s: State) -> (r: Result<PmUsageFlowCtrlSelectMode3, InvalidAddress>) {
        match s {
            State::PmUsageFlowCtrlSelectMode3(r) => Ok(r),
            _ => Err(InvalidAddress),
        }
    }
}

impl vstd::std_specs::convert::TryFromSpecImpl<State> for PmUsageFlowCtrlSelectMode3 {
    open spec fn obeys_try_from_spec() -> bool {
        true
    }

    open spec fn try_from_spec(s: State) -> Result<PmUsageFlowCtrlSelectMode3, InvalidAddress> {
        match s {
            State::PmUsageFlowCtrlSelectMode3(r) => Ok(r),
            _ => Err(InvalidAddress),
        }
    }
}

impl PmUsageFlowCtrlSelectMode3 {
    /// Provides read access to the individual fields of the register.
    pub fn read(&self) -> (r: R<PmUsageFlowCtrlSelectMode3>)
        ensures
            r.0 == *self,
    {
        R(*self)
    }

    /// Provides write access to the individual fields of the register.
    pub fn write(self) -> (w: W<PmUsageFlowCtrlSelectMode3>)
        ensures
            w.0 == self,
    {
        W(self)
    }
}

impl R<PmUsageFlowCtrlSelectMode3> {
    /// Read access to the `data` field.
    pub fn data(&self) -> (f: BitsR<u8>)
        ensures
            f.bits == load8(self.0@, 0xff, 0),
    {
        BitsR { bits: (self.0.bits & 0xff) >> 0u8 }
    }
}

/// The `PmUsageFlowCtrlSelectMode4` register, at address `0xae`.
#[derive(Clone, Copy, Debug, PartialEq, Eq, Structural, Hash)]
pub struct PmUsageFlowCtrlSelectMode4 {
    bits: u8,
}

impl View for PmUsageFlowCtrlSelectMode4 {
    type V = u8;

    closed spec fn view(&self) -> u8 {
        self.bits
    }
}

impl Register for PmUsageFlowCtrlSelectMode4 {
    open spec fn spec_address() -> Address {
        Address::PmUsageFlowCtrlSelectMode4
    }

    closed spec fn spec_from_bits(bits: u8) -> PmUsageFlowCtrlSelectMode4 {
        PmUsageFlowCtrlSelectMode4 { bits }
    }

    proof fn lemma_from_bits(bits: u8) {
    }

    fn address() -> (a: Address) {
        Address::PmUsageFlowCtrlSelectMode4
    }

    fn from_bits(bits: u8) -> (r: PmUsageFlowCtrlSelectMode4) {
        PmUsageFlowCtrlSelectMode4 { bits }
    }

    fn to_bits(&self) -> (b: u8) {
        self.bits
    }
}

impl Default for PmUsageFlowCtrlSelectMode4 {
    fn default() -> (r: PmUsageFlowCtrlSelectMode4)
        ensures
            r@ == default_bits(Address::PmUsageFlowCtrlSelectMode4),
    {
        PmUsageFlowCtrlSelectMode4 { bits: 0x00 }
    }
}

impl From<u8> for PmUsageFlowCtrlSelectMode4 {
    fn from(bits: u8) -> (r: PmUsageFlowCtrlSelectMode4) {
        PmUsageFlowCtrlSelectMode4 { bits }
    }
}

impl vstd::std_specs::convert::FromSpecImpl<u8> for PmUsageFlowCtrlSelectMode4 {
    open spec fn obeys_from_spec() -> bool {
        true
    }

    open spec fn from_spec(bits: u8) -> PmUsageFlowCtrlSelectMode4 {
        <PmUsageFlowCtrlSelectMode4 as Register>::spec_from_bits(bits)
    }
}

impl From<PmUsageFlowCtrlSelectMode4> for u8 {
    fn from(r: PmUsageFlowCtrlSelectMode4) -> (bits: u8) {
        r.bits
    }
}

impl vstd::std_specs::convert::FromSpecImpl<PmUsageFlowCtrlSelectMode4> for u8 {
    open spec fn obeys_from_spec() -> bool {
        true
    }

    open spec fn from_spec(r: PmUsageFlowCtrlSelectMode4) -> u8 {
        r@
    }
}

impl From<PmUsageFlowCtrlSelectMode4> for State {
    fn from(r: PmUsageFlowCtrlSelectMode4) -> (s: State) {
        State::PmUsageFlowCtrlSelectMode4(r)
    }
}

impl vstd::std_specs::convert::FromSpecImpl<PmUsageFlowCtrlSelectMode4> for State {
    open spec fn obeys_from_spec() -> bool {
        true
    }

    open spec fn from_spec(r: PmUsageFlowCtrlSelectMode4) -> State {
        State::PmUsageFlowCtrlSelectMode4(r)
    }
}

impl core::convert::TryFrom<State> for PmUsageFlowCtrlSelectMode4 {
    type Error = InvalidAddress;

    fn try_from(s: State) -> (r: Result<PmUsageFlowCtrlSelectMode4, InvalidAddress>) {
        match s {
            State::PmUsageFlowCtrlSelectMode4(r) => Ok(r),
            _ => Err(InvalidAddress),
        }
    }
}

impl vstd::std_specs::convert::TryFromSpecImpl<State> for PmUsageFlowCtrlSelectMode4 {
    open spec fn obeys_try_from_spec() -> bool {
        true
    }

    open spec fn try_from_spec(s: State) -> Result<PmUsageFlowCtrlSelectMode4, InvalidAddress> {
        match s {
            State::PmUsageFlowCtrlSelectMode4(r) => Ok(r),
            _ => Err(InvalidAddress),
        }
    }
}

impl PmUsageFlowCtrlSelectMode4 {
    /// Provides read access to the individual fields of the register.
    pub fn read(&self) -> (r: R<PmUsageFlowCtrlSelectMode4>)
        ensures
            r.0 == *self,
    {
        R(*self)
    }

    /// Provides write access to the individual fields of the register.
    pub fn write(self) -> (w: W<PmUsageFlowCtrlSelectMode4>)
        ensures
            w.0 == self,
    {
        W(self)
    }
}

impl R<PmUsageFlowCtrlSelectMode4> {
    /// Read access to the `data` field.
    pub fn data(&self) -> (f: BitsR<u8>)
        ensures
            f.bits == load8(self.0@, 0xff, 0),
    {
        BitsR { bits: (self.0.bits & 0xff) >> 0u8 }
    }
}

/// The `Port1TxqSplitForQ3` register, at address `0xaf`.
#[derive(Clone, Copy, Debug, PartialEq, Eq, Structural, Hash)]
pub struct Port1TxqSplitForQ3 {
    bits: u8,
}

impl View for Port1TxqSplitForQ3 {
    type V = u8;

    closed spec fn view(&self) -> u8 {
        self.bits
    }
}

impl Register for Port1TxqSplitForQ3 {
    open spec fn spec_address() -> Address {
        Address::Port1TxqSplitForQ3
    }

    closed spec fn spec_from_bits(bits: u8) -> Port1TxqSplitForQ3 {
        Port1TxqSplitForQ3 { bits }
    }

    proof fn lemma_from_bits(bits: u8) {
    }

    fn address() -> (a: Address) {
        Address::Port1TxqSplitForQ3
    }

    fn from_bits(bits: u8) -> (r: Port1TxqSplitForQ3) {
        Port1TxqSplitForQ3 { bits }
    }

    fn to_bits(&self) -> (b: u8) {
        self.bits
    }
}

impl Default for Port1TxqSplitForQ3 {
    fn default() -> (r: Port1TxqSplitForQ3)
        ensures
            r@ == default_bits(Address::Port1TxqSplitForQ3),
    {
        Port1TxqSplitForQ3 { bits: 0x80 }
    }
}

impl From<u8> for Port1TxqSplitForQ3 {
    fn from(bits: u8) -> (r: Port1TxqSplitForQ3) {
        Port1TxqSplitForQ3 { bits }
    }
}

impl vstd::std_specs::convert::FromSpecImpl<u8> for Port1TxqSplitForQ3 {
    open spec fn obeys_from_spec() -> bool {
        true
    }

    open spec fn from_spec(bits: u8) -> Port1TxqSplitForQ3 {
        <Port1TxqSplitForQ3 as Register>::spec_from_bits(bits)
    }
}

impl From<Port1TxqSplitForQ3> for u8 {
    fn from(r: Port1TxqSplitForQ3) -> (bits: u8) {
        r.bits
    }
}

impl vstd::std_specs::convert::FromSpecImpl<Port1TxqSplitForQ3> for u8 {
    open spec fn obeys_from_spec() -> bool {
        true
    }

    open spec fn from_spec(r: Port1TxqSplitForQ3) -> u8 {
        r@
    }
}

impl From<Port1TxqSplitForQ3> for State {
    fn from(r: Port1TxqSplitForQ3) -> (s: State) {
        State::Port1TxqSplitForQ3(r)
    }
}

impl vstd::std_specs::convert::FromSpecImpl<Port1TxqSplitForQ3> for State {
    open spec fn obeys_from_spec() -> bool {
        true
    }

    open spec fn from_spec(r: Port1TxqSplitForQ3) -> State {
        State::Port1TxqSplitForQ3(r)
    }
}

impl core::convert::TryFrom<State> for Port1TxqSplitForQ3 {
    type Error = InvalidAddress;

    fn try_from(s: State) -> (r: Result<Port1TxqSplitForQ3, InvalidAddress>) {
        match s {
            State::Port1TxqSplitForQ3(r) => Ok(r),
            _ => Err(InvalidAddress),
        }
    }
}

impl vstd::std_specs::convert::TryFromSpecImpl<State> for Port1TxqSplitForQ3 {
    open spec fn obeys_try_from_spec() -> bool {
        true
    }

    open spec fn try_from_spec(s: State) -> Result<Port1TxqSplitForQ3, InvalidAddress> {
        match s {
            State::Port1TxqSplitForQ3(r) => Ok(r),
            _ => Err(InvalidAddress),
        }
    }
}

impl Port1TxqSplitForQ3 {
    /// Provides read access to the individual fields of the register.
    pub fn read(&self) -> (r: R<Port1TxqSplitForQ3>)
        ensures
            r.0 == *self,
    {
        R(*self)
    }

    /// Provides write access to the individual fields of the register.
    pub fn write(self) -> (w: W<Port1TxqSplitForQ3>)
        ensures
            w.0 == self,
    {
        W(self)
    }
}

impl R<Port1TxqSplitForQ3> {
    /// Read access to the `priority_select` field.
    pub fn priority_select(&self) -> (f: BitR)
        ensures
            f.bit == (self.0@ & 0x80 != 0),
    {
        BitR { bit: self.0.bits & 0x80 != 0 }
    }
}

impl W<Port1TxqSplitForQ3> {
    /// Write access to the `priority_select` field.
    pub fn priority_select(self) -> (f: BitW<Port1TxqSplitForQ3>)
        ensures
            f.w == self,
            f.mask == 0x80,
    {
        BitW { w: self, mask: 0x80 }
    }
}

/// The `Port1TxqSplitForQ2` register, at address `0xb0`.
#[derive(Clone, Copy, Debug, PartialEq, Eq, Structural, Hash)]
pub struct Port1TxqSplitForQ2 {
    bits: u8,
}

impl View for Port1TxqSplitForQ2 {
    type V = u8;

    closed spec fn view(&self) -> u8 {
        self.bits
    }
}

impl Register for Port1TxqSplitForQ2 {
    open spec fn spec_address() -> Address {
        Address::Port1TxqSplitForQ2
    }

    closed spec fn spec_from_bits(bits: u8) -> Port1TxqSplitForQ2 {
        Port1TxqSplitForQ2 { bits }
    }

    proof fn lemma_from_bits(bits: u8) {
    }

    fn address() -> (a: Address) {
        Address::Port1TxqSplitForQ2
    }

    fn from_bits(bits: u8) -> (r: Port1TxqSplitForQ2) {
        Port1TxqSplitForQ2 { bits }
    }

    fn to_bits(&self) -> (b: u8) {
        self.bits
    }
}

impl Default for Port1TxqSplitForQ2 {
    fn default() -> (r: Port1TxqSplitForQ2)
        ensures
            r@ == default_bits(Address::Port1TxqSplitForQ2),
    {
        Port1TxqSplitForQ2 { bits: 0x80 }
    }
}

impl From<u8> for Port1TxqSplitForQ2 {
    fn from(bits: u8) -> (r: Port1TxqSplitForQ2) {
        Port1TxqSplitForQ2 { bits }
    }
}

impl vstd::std_specs::convert::FromSpecImpl<u8> for Port1TxqSplitForQ2 {
    open spec fn obeys_from_spec() -> bool {
        true
    }

    open spec fn from_spec(bits: u8) -> Port1TxqSplitForQ2 {
        <Port1TxqSplitForQ2 as Register>::spec_from_bits(bits)
    }
}

impl From<Port1TxqSplitForQ2> for u8 {
    fn from(r: Port1TxqSplitForQ2) -> (bits: u8) {
        r.bits
    }
}

impl vstd::std_specs::convert::FromSpecImpl<Port1TxqSplitForQ2> for u8 {
    open spec fn obeys_from_spec() -> bool {
        true
    }

    open spec fn from_spec(r: Port1TxqSplitForQ2) -> u8 {
        r@
    }
}

impl From<Port1TxqSplitForQ2> for State {
    fn from(r: Port1TxqSplitForQ2) -> (s: State) {
        State::Port1TxqSplitForQ2(r)
    }
}

impl vstd::std_specs::convert::FromSpecImpl<Port1TxqSplitForQ2> for State {
    open spec fn obeys_from_spec() -> bool {
        true
    }

    open spec fn from_spec(r: Port1TxqSplitForQ2) -> State {
        State::Port1TxqSplitForQ2(r)
    }
}

impl core::convert::TryFrom<State> for Port1TxqSplitForQ2 {
    type Error = InvalidAddress;

    fn try_from(s: State) -> (r: Result<Port1TxqSplitForQ2, InvalidAddress>) {
        match s {
            State::Port1TxqSplitForQ2(r) => Ok(r),
            _ => Err(InvalidAddress),
        }
    }
}

impl vstd::std_specs::convert::TryFromSpecImpl<State> for Port1TxqSplitForQ2 {
    open spec fn obeys_try_from_spec() -> bool {
        true
    }

    open spec fn try_from_spec(s: State) -> Result<Port1TxqSplitForQ2, InvalidAddress> {
        match s {
            State::Port1TxqSplitForQ2(r) => Ok(r),
            _ => Err(InvalidAddress),
        }
    }
}

impl Port1TxqSplitForQ2 {
    /// Provides read access to the individual fields of the register.
    pub fn read(&self) -> (r: R<Port1TxqSplitForQ2>)
        ensures
            r.0 == *self,
    {
        R(*self)
    }

    /// Provides write access to the individual fields of the register.
    pub fn write(self) -> (w: W<Port1TxqSplitForQ2>)
        ensures
            w.0 == self,
    {
        W(self)
    }
}

impl R<Port1TxqSplitForQ2> {
    /// Read access to the `priority_select` field.
    pub fn priority_select(&self) -> (f: BitR)
        ensures
            f.bit == (self.0@ & 0x80 != 0),
    {
        BitR { bit: self.0.bits & 0x80 != 0 }
    }
}

impl W<Port1TxqSplitForQ2> {
    /// Write access to the `priority_select` field.
    pub fn priority_select(self) -> (f: BitW<Port1TxqSplitForQ2>)
        ensures
            f.w == self,
            f.mask == 0x80,
    {
        BitW { w: self, mask: 0x80 }
    }
}

/// The `Port1TxqSplitForQ1` register, at address `0xb1`.
#[derive(Clone, Copy, Debug, PartialEq, Eq, Structural, Hash)]
pub struct Port1TxqSplitForQ1 {
    bits: u8,
}

impl View for Port1TxqSplitForQ1 {
    type V = u8;

    closed spec fn view(&self) -> u8 {
        self.bits
    }
}

impl Register for Port1TxqSplitForQ1 {
    open spec fn spec_address() -> Address {
        Address::Port1TxqSplitForQ1
    }

    closed spec fn spec_from_bits(bits: u8) -> Port1TxqSplitForQ1 {
        Port1TxqSplitForQ1 { bits }
    }

    proof fn lemma_from_bits(bits: u8) {
    }

    fn address() -> (a: Address) {
        Address::Port1TxqSplitForQ1
    }

    fn from_bits(bits: u8) -> (r: Port1TxqSplitForQ1) {
        Port1TxqSplitForQ1 { bits }
    }

    fn to_bits(&self) -> (b: u8) {
        self.bits
    }
}

impl Default for Port1TxqSplitForQ1 {
    fn default() -> (r: Port1TxqSplitForQ1)
        ensures
            r@ == default_bits(Address::Port1TxqSplitForQ1),
    {
        Port1TxqSplitForQ1 { bits: 0x80 }
    }
}

impl From<u8> for Port1TxqSplitForQ1 {
    fn from(bits: u8) -> (r: Port1TxqSplitForQ1) {
        Port1TxqSplitForQ1 { bits }
    }
}

impl vstd::std_specs::convert::FromSpecImpl<u8> for Port1TxqSplitForQ1 {
    open spec fn obeys_from_spec() -> bool {
        true
    }

    open spec fn from_spec(bits: u8) -> Port1TxqSplitForQ1 {
        <Port1TxqSplitForQ1 as Register>::spec_from_bits(bits)
    }
}

impl From<Port1TxqSplitForQ1> for u8 {
    fn from(r: Port1TxqSplitForQ1) -> (bits: u8) {
        r.bits
    }
}

impl vstd::std_specs::convert::FromSpecImpl<Port1TxqSplitForQ1> for u8 {
    open spec fn obeys_from_spec() -> bool {
        true
    }

    open spec fn from_spec(r: Port1TxqSplitForQ1) -> u8 {
        r@
    }
}

impl From<Port1TxqSplitForQ1> for State {
    fn from(r: Port1TxqSplitForQ1) -> (s: State) {
        State::Port1TxqSplitForQ1(r)
    }
}

impl vstd::std_specs::convert::FromSpecImpl<Port1TxqSplitForQ1> for State {
    open spec fn obeys_from_spec() -> bool {
        true
    }

    open spec fn from_spec(r: Port1TxqSplitForQ1) -> State {
        State::Port1TxqSplitForQ1(r)
    }
}

impl core::convert::TryFrom<State> for Port1TxqSplitForQ1 {
    type Error = InvalidAddress;

    fn try_from(s: State) -> (r: Result<Port1TxqSplitForQ1, InvalidAddress>) {
        match s {
            State::Port1TxqSplitForQ1(r) => Ok(r),
            _ => Err(InvalidAddress),
        }
    }
}

impl vstd::std_specs::convert::TryFromSpecImpl<State> for Port1TxqSplitForQ1 {
    open spec fn obeys_try_from_spec() -> bool {
        true
    }

    open spec fn try_from_spec(s: State) -> Result<Port1TxqSplitForQ1, InvalidAddress> {
        match s {
            State::Port1TxqSplitForQ1(r) => Ok(r),
            _ => Err(InvalidAddress),
        }
    }
}

impl Port1TxqSplitForQ1 {
    /// Provides read access to the individual fields of the register.
    pub fn read(&self) -> (r: R<Port1TxqSplitForQ1>)
        ensures
            r.0 == *self,
    {
        R(*self)
    }

    /// Provides write access to the individual fields of the register.
    pub fn write(self) -> (w: W<Port1TxqSplitForQ1>)
        ensures
            w.0 == self,
    {
        W(self)
    }
}

impl R<Port1TxqSplitForQ1> {
    /// Read access to the `priority_select` field.
    pub fn priority_select(&self) -> (f: BitR)
        ensures
            f.bit == (self.0@ & 0x80 != 0),
    {
        BitR { bit: self.0.bits & 0x80 != 0 }
    }
}

impl W<Port1TxqSplitForQ1> {
    /// Write access to the `priority_select` field.
    pub fn priority_select(self) -> (f: BitW<Port1TxqSplitForQ1>)
        ensures
            f.w == self,
            f.mask == 0x80,
    {
        BitW { w: self, mask: 0x80 }
    }
}

/// The `Port1TxqSplitForQ0` register, at address `0xb2`.
#[derive(Clone, Copy, Debug, PartialEq, Eq, Structural, Hash)]
pub struct Port1TxqSplitForQ0 {
    bits: u8,
}

impl View for Port1TxqSplitForQ0 {
    type V = u8;

    closed spec fn view(&self) -> u8 {
        self.bits
    }
}

impl Register for Port1TxqSplitForQ0 {
    open spec fn spec_address() -> Address {
        Address::Port1TxqSplitForQ0
    }

    closed spec fn spec_from_bits(bits: u8) -> Port1TxqSplitForQ0 {
        Port1TxqSplitForQ0 { bits }
    }

    proof fn lemma_from_bits(bits: u8) {
    }

    fn address() -> (a: Address) {
        Address::Port1TxqSplitForQ0
    }

    fn from_bits(bits: u8) -> (r: Port1TxqSplitForQ0) {
        Port1TxqSplitForQ0 { bits }
    }

    fn to_bits(&self) -> (b: u8) {
        self.bits
    }
}

impl Default for Port1TxqSplitForQ0 {
    fn default() -> (r: Port1TxqSplitForQ0)
        ensures
            r@ == default_bits(Address::Port1TxqSplitForQ0),
    {
        Port1TxqSplitForQ0 { bits: 0x80 }
    }
}

impl From<u8> for Port1TxqSplitForQ0 {
    fn from(bits: u8) -> (r: Port1TxqSplitForQ0) {
        Port1TxqSplitForQ0 { bits }
    }
}

impl vstd::std_specs::convert::FromSpecImpl<u8> for Port1TxqSplitForQ0 {
    open spec fn obeys_from_spec() -> bool {
        true
    }

    open spec fn from_spec(bits: u8) -> Port1TxqSplitForQ0 {
        <Port1TxqSplitForQ0 as Register>::spec_from_bits(bits)
    }
}

impl From<Port1TxqSplitForQ0> for u8 {
    fn from(r: Port1TxqSplitForQ0) -> (bits: u8) {
        r.bits
    }
}

impl vstd::std_specs::convert::FromSpecImpl<Port1TxqSplitForQ0> for u8 {
    open spec fn obeys_from_spec() -> bool {
        true
    }

    open spec fn from_spec(r: Port1TxqSplitForQ0) -> u8 {
        r@
    }
}

impl From<Port1TxqSplitForQ0> for State {
    fn from(r: Port1TxqSplitForQ0) -> (s: State) {
        State::Port1TxqSplitForQ0(r)
    }
}

impl vstd::std_specs::convert::FromSpecImpl<Port1TxqSplitForQ0> for State {
    open spec fn obeys_from_spec() -> bool {
        true
    }

    open spec fn from_spec(r: Port1TxqSplitForQ0) -> State {
        State::Port1TxqSplitForQ0(r)
    }
}

impl core::convert::TryFrom<State> for Port1TxqSplitForQ0 {
    type Error = InvalidAddress;

    fn try_from(s: State) -> (r: Result<Port1TxqSplitForQ0, InvalidAddress>) {
        match s {
            State::Port1TxqSplitForQ0(r) => Ok(r),
            _ => Err(InvalidAddress),
        }
    }
}

impl vstd::std_specs::convert::TryFromSpecImpl<State> for Port1TxqSplitForQ0 {
    open spec fn obeys_try_from_spec() -> bool {
        true
    }

    open spec fn try_from_spec(s: State) -> Result<Port1TxqSplitForQ0, InvalidAddress> {
        match s {
            State::Port1TxqSplitForQ0(r) => Ok(r),
            _ => Err(InvalidAddress),
        }
    }
}

impl Port1TxqSplitForQ0 {
    /// Provides read access to the individual fields of the register.
    pub fn read(&self) -> (r: R<Port1TxqSplitForQ0>)
        ensures
            r.0 == *self,
    {
        R(*self)
    }

    /// Provides write access to the individual fields of the register.
    pub fn write(self) -> (w: W<Port1TxqSplitForQ0>)
        ensures
            w.0 == self,
    {
        W(self)
    }
}

impl R<Port1TxqSplitForQ0> {
    /// Read access to the `priority_select` field.
    pub fn priority_select(&self) -> (f: BitR)
        ensures
            f.bit == (self.0@ & 0x80 != 0),
    {
        BitR { bit: self.0.bits & 0x80 != 0 }
    }
}

impl W<Port1TxqSplitForQ0> {
    /// Write access to the `priority_select` field.
    pub fn priority_select(self) -> (f: BitW<Port1TxqSplitForQ0>)
        ensures
            f.w == self,
            f.mask == 0x80,
    {
        BitW { w: self, mask: 0x80 }
    }
}

/// The `Port2TxqSplitForQ3` register, at address `0xb3`.
#[derive(Clone, Copy, Debug, PartialEq, Eq, Structural, Hash)]
pub struct Port2TxqSplitForQ3 {
    bits: u8,
}

impl View for Port2TxqSplitForQ3 {
    type V = u8;

    closed spec fn view(&self) -> u8 {
        self.bits
    }
}

impl Register for Port2TxqSplitForQ3 {
    open spec fn spec_address() -> Address {
        Address::Port2TxqSplitForQ3
    }

    closed spec fn spec_from_bits(bits: u8) -> Port2TxqSplitForQ3 {
        Port2TxqSplitForQ3 { bits }
    }

    proof fn lemma_from_bits(bits: u8) {
    }

    fn address() -> (a: Address) {
        Address::Port2TxqSplitForQ3
    }

    fn from_bits(bits: u8) -> (r: Port2TxqSplitForQ3) {
        Port2TxqSplitForQ3 { bits }
    }

    fn to_bits(&self) -> (b: u8) {
        self.bits
    }
}

impl Default for Port2TxqSplitForQ3 {
    fn default() -> (r: Port2TxqSplitForQ3)
        ensures
            r@ == default_bits(Address::Port2TxqSplitForQ3),
    {
        Port2TxqSplitForQ3 { bits: 0x80 }
    }
}

impl From<u8> for Port2TxqSplitForQ3 {
    fn from(bits: u8) -> (r: Port2TxqSplitForQ3) {
        Port2TxqSplitForQ3 { bits }
    }
}

impl vstd::std_specs::convert::FromSpecImpl<u8> for Port2TxqSplitForQ3 {
    open spec fn obeys_from_spec() -> bool {
        true
    }

    open spec fn from_spec(bits: u8) -> Port2TxqSplitForQ3 {
        <Port2TxqSplitForQ3 as Register>::spec_from_bits(bits)
    }
}

impl From<Port2TxqSplitForQ3> for u8 {
    fn from(r: Port2TxqSplitForQ3) -> (bits: u8) {
        r.bits
    }
}

impl vstd::std_specs::convert::FromSpecImpl<Port2TxqSplitForQ3> for u8 {
    open spec fn obeys_from_spec() -> bool {
        true
    }

    open spec fn from_spec(r: Port2TxqSplitForQ3) -> u8 {
        r@
    }
}

impl From<Port2TxqSplitForQ3> for State {
    fn from(r: Port2TxqSplitForQ3) -> (s: State) {
        State::Port2TxqSplitForQ3(r)
    }
}

impl vstd::std_specs::convert::FromSpecImpl<Port2TxqSplitForQ3> for State {
    open spec fn obeys_from_spec() -> bool {
        true
    }

    open spec fn from_spec(r: Port2TxqSplitForQ3) -> State {
        State::Port2TxqSplitForQ3(r)
    }
}

impl core::convert::TryFrom<State> for Port2TxqSplitForQ3 {
    type Error = InvalidAddress;

    fn try_from(s: State) -> (r: Result<Port2TxqSplitForQ3, InvalidAddress>) {
        match s {
            State::Port2TxqSplitForQ3(r) => Ok(r),
            _ => Err(InvalidAddress),
        }
    }
}

impl vstd::std_specs::convert::TryFromSpecImpl<State> for Port2TxqSplitForQ3 {
    open spec fn obeys_try_from_spec() -> bool {
        true
    }

    open spec fn try_from_spec(s: State) -> Result<Port2TxqSplitForQ3, InvalidAddress> {
        match s {
            State::Port2TxqSplitForQ3(r) => Ok(r),
            _ => Err(InvalidAddress),
        }
    }
}

impl Port2TxqSplitForQ3 {
    /// Provides read access to the individual fields of the register.
    pub fn read(&self) -> (r: R<Port2TxqSplitForQ3>)
        ensures
            r.0 == *self,
    {
        R(*self)
    }

    /// Provides write access to the individual fields of the register.
    pub fn write(self) -> (w: W<Port2TxqSplitForQ3>)
        ensures
            w.0 == self,
    {
        W(self)
    }
}

impl R<Port2TxqSplitForQ3> {
    /// Read access to the `priority_select` field.
    pub fn priority_select(&self) -> (f: BitR)
        ensures
            f.bit == (self.0@ & 0x80 != 0),
    {
        BitR { bit: self.0.bits & 0x80 != 0 }
    }
}

impl W<Port2TxqSplitForQ3> {
    /// Write access to the `priority_select` field.
    pub fn priority_select(self) -> (f: BitW<Port2TxqSplitForQ3>)
        ensures
            f.w == self,
            f.mask == 0x80,
    {
        BitW { w: self, mask: 0x80 }
    }
}

/// The `Port2TxqSplitForQ2` register, at address `0xb4`.
#[derive(Clone, Copy, Debug, PartialEq, Eq, Structural, Hash)]
pub struct Port2TxqSplitForQ2 {
    bits: u8,
}

impl View for Port2TxqSplitForQ2 {
    type V = u8;

    closed spec fn view(&self) -> u8 {
        self.bits
    }
}

impl Register for Port2TxqSplitForQ2 {
    open spec fn spec_address() -> Address {
        Address::Port2TxqSplitForQ2
    }

    closed spec fn spec_from_bits(bits: u8) -> Port2TxqSplitForQ2 {
        Port2TxqSplitForQ2 { bits }
    }

    proof fn lemma_from_bits(bits: u8) {
    }

    fn address() -> (a: Address) {
        Address::Port2TxqSplitForQ2
    }

    fn from_bits(bits: u8) -> (r: Port2TxqSplitForQ2) {
        Port2TxqSplitForQ2 { bits }
    }

    fn to_bits(&self) -> (b: u8) {
        self.bits
    }
}

impl Default for Port2TxqSplitForQ2 {
    fn default() -> (r: Port2TxqSplitForQ2)
        ensures
            r@ == default_bits(Address::Port2TxqSplitForQ2),
    {
        Port2TxqSplitForQ2 { bits: 0x80 }
    }
}

impl From<u8> for Port2TxqSplitForQ2 {
    fn from(bits: u8) -> (r: Port2TxqSplitForQ2) {
        Port2TxqSplitForQ2 { bits }
    }
}

impl vstd::std_specs::convert::FromSpecImpl<u8> for Port2TxqSplitForQ2 {
    open spec fn obeys_from_spec() -> bool {
        true
    }

    open spec fn from_spec(bits: u8) -> Port2TxqSplitForQ2 {
        <Port2TxqSplitForQ2 as Register>::spec_from_bits(bits)
    }
}

impl From<Port2TxqSplitForQ2> for u8 {
    fn from(r: Port2TxqSplitForQ2) -> (bits: u8) {
        r.bits
    }
}

impl vstd::std_specs::convert::FromSpecImpl<Port2TxqSplitForQ2> for u8 {
    open spec fn obeys_from_spec() -> bool {
        true
    }

    open spec fn from_spec(r: Port2TxqSplitForQ2) -> u8 {
        r@
    }
}

impl From<Port2TxqSplitForQ2> for State {
    fn from(r: Port2TxqSplitForQ2) -> (s: State) {
        State::Port2TxqSplitForQ2(r)
    }
}

impl vstd::std_specs::convert::FromSpecImpl<Port2TxqSplitForQ2> for State {
    open spec fn obeys_from_spec() -> bool {
        true
    }

    open spec fn from_spec(r: Port2TxqSplitForQ2) -> State {
        State::Port2TxqSplitForQ2(r)
    }
}

impl core::convert::TryFrom<State> for Port2TxqSplitForQ2 {
    type Error = InvalidAddress;

    fn try_from(s: State) -> (r: Result<Port2TxqSplitForQ2, InvalidAddress>) {
        match s {
            State::Port2TxqSplitForQ2(r) => Ok(r),
            _ => Err(InvalidAddress),
        }
    }
}

impl vstd::std_specs::convert::TryFromSpecImpl<State> for Port2TxqSplitForQ2 {
    open spec fn obeys_try_from_spec() -> bool {
        true
    }

    open spec fn try_from_spec(s: State) -> Result<Port2TxqSplitForQ2, InvalidAddress> {
        match s {
            State::Port2TxqSplitForQ2(r) => Ok(r),
            _ => Err(InvalidAddress),
        }
    }
}

impl Port2TxqSplitForQ2 {
    /// Provides read access to the individual fields of the register.
    pub fn read(&self) -> (r: R<Port2TxqSplitForQ2>)
        ensures
            r.0 == *self,
    {
        R(*self)
    }

    /// Provides write access to the individual fields of the register.
    pub fn write(self) -> (w: W<Port2TxqSplitForQ2>)
        ensures
            w.0 == self,
    {
        W(self)
    }
}

impl R<Port2TxqSplitForQ2> {
    /// Read access to the `priority_select` field.
    pub fn priority_select(&self) -> (f: BitR)
        ensures
            f.bit == (self.0@ & 0x80 != 0),
    {
        BitR { bit: self.0.bits & 0x80 != 0 }
    }
}

impl W<Port2TxqSplitForQ2> {
    /// Write access to the `priority_select` field.
    pub fn priority_select(self) -> (f: BitW<Port2TxqSplitForQ2>)
        ensures
            f.w == self,
            f.mask == 0x80,
    {
        BitW { w: self, mask: 0x80 }
    }
}

/// The `Port2TxqSplitForQ1` register, at address `0xb5`.
#[derive(Clone, Copy, Debug, PartialEq, Eq, Structural, Hash)]
pub struct Port2TxqSplitForQ1 {
    bits: u8,
}

impl View for Port2TxqSplitForQ1 {
    type V = u8;

    closed spec fn view(&self) -> u8 {
        self.bits
    }
}

impl Register for Port2TxqSplitForQ1 {
    open spec fn spec_address() -> Address {
        Address::Port2TxqSplitForQ1
    }

    closed spec fn spec_from_bits(bits: u8) -> Port2TxqSplitForQ1 {
        Port2TxqSplitForQ1 { bits }
    }

    proof fn lemma_from_bits(bits: u8) {
    }

    fn address() -> (a: Address) {
        Address::Port2TxqSplitForQ1
    }

    fn from_bits(bits: u8) -> (r: Port2TxqSplitForQ1) {
        Port2TxqSplitForQ1 { bits }
    }

    fn to_bits(&self) -> (b: u8) {
        self.bits
    }
}

impl Default for Port2TxqSplitForQ1 {
    fn default() -> (r: Port2TxqSplitForQ1)
        ensures
            r@ == default_bits(Address::Port2TxqSplitForQ1),
    {
        Port2TxqSplitForQ1 { bits: 0x80 }
    }
}

impl From<u8> for Port2TxqSplitForQ1 {
    fn from(bits: u8) -> (r: Port2TxqSplitForQ1) {
        Port2TxqSplitForQ1 { bits }
    }
}

impl vstd::std_specs::convert::FromSpecImpl<u8> for Port2TxqSplitForQ1 {
    open spec fn obeys_from_spec() -> bool {
        true
    }

    open spec fn from_spec(bits: u8) -> Port2TxqSplitForQ1 {
        <Port2TxqSplitForQ1 as Register>::spec_from_bits(bits)
    }
}

impl From<Port2TxqSplitForQ1> for u8 {
    fn from(r: Port2TxqSplitForQ1) -> (bits: u8) {
        r.bits
    }
}

impl vstd::std_specs::convert::FromSpecImpl<Port2TxqSplitForQ1> for u8 {
    open spec fn obeys_from_spec() -> bool {
        true
    }

    open spec fn from_spec(r: Port2TxqSplitForQ1) -> u8 {
        r@
    }
}

impl From<Port2TxqSplitForQ1> for State {
    fn from(r: Port2TxqSplitForQ1) -> (s: State) {
        State::Port2TxqSplitForQ1(r)
    }
}

impl vstd::std_specs::convert::FromSpecImpl<Port2TxqSplitForQ1> for State {
    open spec fn obeys_from_spec() -> bool {
        true
    }

    open spec fn from_spec(r: Port2TxqSplitForQ1) -> State {
        State::Port2TxqSplitForQ1(r)
    }
}

impl core::convert::TryFrom<State> for Port2TxqSplitForQ1 {
    type Error = InvalidAddress;

    fn try_from(s: State) -> (r: Result<Port2TxqSplitForQ1, InvalidAddress>) {
        match s {
            State::Port2TxqSplitForQ1(r) => Ok(r),
            _ => Err(InvalidAddress),
        }
    }
}

impl vstd::std_specs::convert::TryFromSpecImpl<State> for Port2TxqSplitForQ1 {
    open spec fn obeys_try_from_spec() -> bool {
        true
    }

    open spec fn try_from_spec(s: State) -> Result<Port2TxqSplitForQ1, InvalidAddress> {
        match s {
            State::Port2TxqSplitForQ1(r) => Ok(r),
            _ => Err(InvalidAddress),
        }
    }
}

impl Port2TxqSplitForQ1 {
    /// Provides read access to the individual fields of the register.
    pub fn read(&self) -> (r: R<Port2TxqSplitForQ1>)
        ensures
            r.0 == *self,
    {
        R(*self)
    }

    /// Provides write access to the individual fields of the register.
    pub fn write(self) -> (w: W<Port2TxqSplitForQ1>)
        ensures
            w.0 == self,
    {
        W(self)
    }
}

impl R<Port2TxqSplitForQ1> {
    /// Read access to the `priority_select` field.
    pub fn priority_select(&self) -> (f: BitR)
        ensures
            f.bit == (self.0@ & 0x80 != 0),
    {
        BitR { bit: self.0.bits & 0x80 != 0 }
    }
}

impl W<Port2TxqSplitForQ1> {
    /// Write access to the `priority_select` field.
    pub fn priority_select(self) -> (f: BitW<Port2TxqSplitForQ1>)
        ensures
            f.w == self,
            f.mask == 0x80,
    {
        BitW { w: self, mask: 0x80 }
    }
}

/// The `Port2TxqSplitForQ0` register, at address `0xb6`.
#[derive(Clone, Copy, Debug, PartialEq, Eq, Structural, Hash)]
pub struct Port2TxqSplitForQ0 {
    bits: u8,
}

impl View for Port2TxqSplitForQ0 {
    type V = u8;

    closed spec fn view(&self) -> u8 {
        self.bits
    }
}

impl Register for Port2TxqSplitForQ0 {
    open spec fn spec_address() -> Address {
        Address::Port2TxqSplitForQ0
    }

    closed spec fn spec_from_bits(bits: u8) -> Port2TxqSplitForQ0 {
        Port2TxqSplitForQ0 { bits }
    }

    proof fn lemma_from_bits(bits: u8) {
    }

    fn address() -> (a: Address) {
        Address::Port2TxqSplitForQ0
    }

    fn from_bits(bits: u8) -> (r: Port2TxqSplitForQ0) {
        Port2TxqSplitForQ0 { bits }
    }

    fn to_bits(&self) -> (b: u8) {
        self.bits
    }
}

impl Default for Port2TxqSplitForQ0 {
    fn default() -> (r: Port2TxqSplitForQ0)
        ensures
            r@ == default_bits(Address::Port2TxqSplitForQ0),
    {
        Port2TxqSplitForQ0 { bits: 0x80 }
    }
}

impl From<u8> for Port2TxqSplitForQ0 {
    fn from(bits: u8) -> (r: Port2TxqSplitForQ0) {
        Port2TxqSplitForQ0 { bits }
    }
}

impl vstd::std_specs::convert::FromSpecImpl<u8> for Port2TxqSplitForQ0 {
    open spec fn obeys_from_spec() -> bool {
        true
    }

    open spec fn from_spec(bits: u8) -> Port2TxqSplitForQ0 {
        <Port2TxqSplitForQ0 as Register>::spec_from_bits(bits)
    }
}

impl From<Port2TxqSplitForQ0> for u8 {
    fn from(r: Port2TxqSplitForQ0) -> (bits: u8) {
        r.bits
    }
}

impl vstd::std_specs::convert::FromSpecImpl<Port2TxqSplitForQ0> for u8 {
    open spec fn obeys_from_spec() -> bool {
        true
    }

    open spec fn from_spec(r: Port2TxqSplitForQ0) -> u8 {
        r@
    }
}

impl From<Port2TxqSplitForQ0> for State {
    fn from(r: Port2TxqSplitForQ0) -> (s: State) {
        State::Port2TxqSplitForQ0(r)
    }
}

impl vstd::std_specs::convert::FromSpecImpl<Port2TxqSplitForQ0> for State {
    open spec fn obeys_from_spec() -> bool {
        true
    }

    open spec fn from_spec(r: Port2TxqSplitForQ0) -> State {
        State::Port2TxqSplitForQ0(r)
    }
}

impl core::convert::TryFrom<State> for Port2TxqSplitForQ0 {
    type Error = InvalidAddress;

    fn try_from(s: State) -> (r: Result<Port2TxqSplitForQ0, InvalidAddress>) {
        match s {
            State::Port2TxqSplitForQ0(r) => Ok(r),
            _ => Err(InvalidAddress),
        }
    }
}

impl vstd::std_specs::convert::TryFromSpecImpl<State> for Port2TxqSplitForQ0 {
    open spec fn obeys_try_from_spec() -> bool {
        true
    }

    open spec fn try_from_spec(s: State) -> Result<Port2TxqSplitForQ0, InvalidAddress> {
        match s {
            State::Port2TxqSplitForQ0(r) => Ok(r),
            _ => Err(InvalidAddress),
        }
    }
}

impl Port2TxqSplitForQ0 {
    /// Provides read access to the individual fields of the register.
    pub fn read(&self) -> (r: R<Port2TxqSplitForQ0>)
        ensures
            r.0 == *self,
    {
        R(*self)
    }

    /// Provides write access to the individual fields of the register.
    pub fn write(self) -> (w: W<Port2TxqSplitForQ0>)
        ensures
            w.0 == self,
    {
        W(self)
    }
}

impl R<Port2TxqSplitForQ0> {
    /// Read access to the `priority_select` field.
    pub fn priority_select(&self) -> (f: BitR)
        ensures
            f.bit == (self.0@ & 0x80 != 0),
    {
        BitR { bit: self.0.bits & 0x80 != 0 }
    }
}

impl W<Port2TxqSplitForQ0> {
    /// Write access to the `priority_select` field.
    pub fn priority_select(self) -> (f: BitW<Port2TxqSplitForQ0>)
        ensures
            f.w == self,
            f.mask == 0x80,
    {
        BitW { w: self, mask: 0x80 }
    }
}

/// The `Port3TxqSplitForQ3` register, at address `0xb7`.
#[derive(Clone, Copy, Debug, PartialEq, Eq, Structural, Hash)]
pub struct Port3TxqSplitForQ3 {
    bits: u8,
}

impl View for Port3TxqSplitForQ3 {
    type V = u8;

    closed spec fn view(&self) -> u8 {
        self.bits
    }
}

impl Register for Port3TxqSplitForQ3 {
    open spec fn spec_address() -> Address {
        Address::Port3TxqSplitForQ3
    }

    closed spec fn spec_from_bits(bits: u8) -> Port3TxqSplitForQ3 {
        Port3TxqSplitForQ3 { bits }
    }

    proof fn lemma_from_bits(bits: u8) {
    }

    fn address() -> (a: Address) {
        Address::Port3TxqSplitForQ3
    }

    fn from_bits(bits: u8) -> (r: Port3TxqSplitForQ3) {
        Port3TxqSplitForQ3 { bits }
    }

    fn to_bits(&self) -> (b: u8) {
        self.bits
    }
}

impl Default for Port3TxqSplitForQ3 {
    fn default() -> (r: Port3TxqSplitForQ3)
        ensures
            r@ == default_bits(Address::Port3TxqSplitForQ3),
    {
        Port3TxqSplitForQ3 { bits: 0x80 }
    }
}

impl From<u8> for Port3TxqSplitForQ3 {
    fn from(bits: u8) -> (r: Port3TxqSplitForQ3) {
        Port3TxqSplitForQ3 { bits }
    }
}

impl vstd::std_specs::convert::FromSpecImpl<u8> for Port3TxqSplitForQ3 {
    open spec fn obeys_from_spec() -> bool {
        true
    }

    open spec fn from_spec(bits: u8) -> Port3TxqSplitForQ3 {
        <Port3TxqSplitForQ3 as Register>::spec_from_bits(bits)
    }
}

impl From<Port3TxqSplitForQ3> for u8 {
    fn from(r: Port3TxqSplitForQ3) -> (bits: u8) {
        r.bits
    }
}

impl vstd::std_specs::convert::FromSpecImpl<Port3TxqSplitForQ3> for u8 {
    open spec fn obeys_from_spec() -> bool {
        true
    }

    open spec fn from_spec(r: Port3TxqSplitForQ3) -> u8 {
        r@
    }
}

impl From<Port3TxqSplitForQ3> for State {
    fn from(r: Port3TxqSplitForQ3) -> (s: State) {
        State::Port3TxqSplitForQ3(r)
    }
}

impl vstd::std_specs::convert::FromSpecImpl<Port3TxqSplitForQ3> for State {
    open spec fn obeys_from_spec() -> bool {
        true
    }

    open spec fn from_spec(r: Port3TxqSplitForQ3) -> State {
        State::Port3TxqSplitForQ3(r)
    }
}

impl core::convert::TryFrom<State> for Port3TxqSplitForQ3 {
    type Error = InvalidAddress;

    fn try_from(s: State) -> (r: Result<Port3TxqSplitForQ3, InvalidAddress>) {
        match s {
            State::Port3TxqSplitForQ3(r) => Ok(r),
            _ => Err(InvalidAddress),
        }
    }
}

impl vstd::std_specs::convert::TryFromSpecImpl<State> for Port3TxqSplitForQ3 {
    open spec fn obeys_try_from_spec() -> bool {
        true
    }

    open spec fn try_from_spec(s: State) -> Result<Port3TxqSplitForQ3, InvalidAddress> {
        match s {
            State::Port3TxqSplitForQ3(r) => Ok(r),
            _ => Err(InvalidAddress),
        }
    }
}

impl Port3TxqSplitForQ3 {
    /// Provides read access to the individual fields of the register.
    pub fn read(&self) -> (r: R<Port3TxqSplitForQ3>)
        ensures
            r.0 == *self,
    {
        R(*self)
    }

    /// Provides write access to the individual fields of the register.
    pub fn write(self) -> (w: W<Port3TxqSplitForQ3>)
        ensures
            w.0 == self,
    {
        W(self)
    }
}

impl R<Port3TxqSplitForQ3> {
    /// Read access to the `priority_select` field.
    pub fn priority_select(&self) -> (f: BitR)
        ensures
            f.bit == (self.0@ & 0x80 != 0),
    {
        BitR { bit: self.0.bits & 0x80 != 0 }
    }
}

impl W<Port3TxqSplitForQ3> {
    /// Write access to the `priority_select` field.
    pub fn priority_select(self) -> (f: BitW<Port3TxqSplitForQ3>)
        ensures
            f.w == self,
            f.mask == 0x80,
    {
        BitW { w: self, mask: 0x80 }
    }
}

/// The `Port3TxqSplitForQ2` register, at address `0xb8`.
#[derive(Clone, Copy, Debug, PartialEq, Eq, Structural, Hash)]
pub struct Port3TxqSplitForQ2 {
    bits: u8,
}

impl View for Port3TxqSplitForQ2 {
    type V = u8;

    closed spec fn view(&self) -> u8 {
        self.bits
    }
}

impl Register for Port3TxqSplitForQ2 {
    open spec fn spec_address() -> Address {
        Address::Port3TxqSplitForQ2
    }

    closed spec fn spec_from_bits(bits: u8) -> Port3TxqSplitForQ2 {
        Port3TxqSplitForQ2 { bits }
    }

    proof fn lemma_from_bits(bits: u8) {
    }

    fn address() -> (a: Address) {
        Address::Port3TxqSplitForQ2
    }

    fn from_bits(bits: u8) -> (r: Port3TxqSplitForQ2) {
        Port3TxqSplitForQ2 { bits }
    }

    fn to_bits(&self) -> (b: u8) {
        self.bits
    }
}

impl Default for Port3TxqSplitForQ2 {
    fn default() -> (r: Port3TxqSplitForQ2)
        ensures
            r@ == default_bits(Address::Port3TxqSplitForQ2),
    {
        Port3TxqSplitForQ2 { bits: 0x80 }
    }
}

impl From<u8> for Port3TxqSplitForQ2 {
    fn from(bits: u8) -> (r: Port3TxqSplitForQ2) {
        Port3TxqSplitForQ2 { bits }
    }
}

impl vstd::std_specs::convert::FromSpecImpl<u8> for Port3TxqSplitForQ2 {
    open spec fn obeys_from_spec() -> bool {
        true
    }

    open spec fn from_spec(bits: u8) -> Port3TxqSplitForQ2 {
        <Port3TxqSplitForQ2 as Register>::spec_from_bits(bits)
    }
}

impl From<Port3TxqSplitForQ2> for u8 {
    fn from(r: Port3TxqSplitForQ2) -> (bits: u8) {
        r.bits
    }
}

impl vstd::std_specs::convert::FromSpecImpl<Port3TxqSplitForQ2> for u8 {
    open spec fn obeys_from_spec() -> bool {
        true
    }

    open spec fn from_spec(r: Port3TxqSplitForQ2) -> u8 {
        r@
    }
}

impl From<Port3TxqSplitForQ2> for State {
    fn from(r: Port3TxqSplitForQ2) -> (s: State) {
        State::Port3TxqSplitForQ2(r)
    }
}

impl vstd::std_specs::convert::FromSpecImpl<Port3TxqSplitForQ2> for State {
    open spec fn obeys_from_spec() -> bool {
        true
    }

    open spec fn from_spec(r: Port3TxqSplitForQ2) -> State {
        State::Port3TxqSplitForQ2(r)
    }
}

impl core::convert::TryFrom<State> for Port3TxqSplitForQ2 {
    type Error = InvalidAddress;

    fn try_from(s: State) -> (r: Result<Port3TxqSplitForQ2, InvalidAddress>) {
        match s {
            State::Port3TxqSplitForQ2(r) => Ok(r),
            _ => Err(InvalidAddress),
        }
    }
}

impl vstd::std_specs::convert::TryFromSpecImpl<State> for Port3TxqSplitForQ2 {
    open spec fn obeys_try_from_spec() -> bool {
        true
    }

    open spec fn try_from_spec(s: State) -> Result<Port3TxqSplitForQ2, InvalidAddress> {
        match s {
            State::Port3TxqSplitForQ2(r) => Ok(r),
            _ => Err(InvalidAddress),
        }
    }
}

impl Port3TxqSplitForQ2 {
    /// Provides read access to the individual fields of the register.
    pub fn read(&self) -> (r: R<Port3TxqSplitForQ2>)
        ensures
            r.0 == *self,
    {
        R(*self)
    }

    /// Provides write access to the individual fields of the register.
    pub fn write(self) -> (w: W<Port3TxqSplitForQ2>)
        ensures
            w.0 == self,
    {
        W(self)
    }
}

impl R<Port3TxqSplitForQ2> {
    /// Read access to the `priority_select` field.
    pub fn priority_select(&self) -> (f: BitR)
        ensures
            f.bit == (self.0@ & 0x80 != 0),
    {
        BitR { bit: self.0.bits & 0x80 != 0 }
    }
}

impl W<Port3TxqSplitForQ2> {
    /// Write access to the `priority_select` field.
    pub fn priority_select(self) -> (f: BitW<Port3TxqSplitForQ2>)
        ensures
            f.w == self,
            f.mask == 0x80,
    {
        BitW { w: self, mask: 0x80 }
    }
}

/// The `Port3TxqSplitForQ1` register, at address `0xb9`.
#[derive(Clone, Copy, Debug, PartialEq, Eq, Structural, Hash)]
pub struct Port3TxqSplitForQ1 {
    bits: u8,
}

impl View for Port3TxqSplitForQ1 {
    type V = u8;

    closed spec fn view(&self) -> u8 {
        self.bits
    }
}

impl Register for Port3TxqSplitForQ1 {
    open spec fn spec_address() -> Address {
        Address::Port3TxqSplitForQ1
    }

    closed spec fn spec_from_bits(bits: u8) -> Port3TxqSplitForQ1 {
        Port3TxqSplitForQ1 { bits }
    }

    proof fn lemma_from_bits(bits: u8) {
    }

    fn address() -> (a: Address) {
        Address::Port3TxqSplitForQ1
    }

    fn from_bits(bits: u8) -> (r: Port3TxqSplitForQ1) {
        Port3TxqSplitForQ1 { bits }
    }

    fn to_bits(&self) -> (b: u8) {
        self.bits
    }
}

impl Default for Port3TxqSplitForQ1 {
    fn default() -> (r: Port3TxqSplitForQ1)
        ensures
            r@ == default_bits(Address::Port3TxqSplitForQ1),
    {
        Port3TxqSplitForQ1 { bits: 0x80 }
    }
}

impl From<u8> for Port3TxqSplitForQ1 {
    fn from(bits: u8) -> (r: Port3TxqSplitForQ1) {
        Port3TxqSplitForQ1 { bits }
    }
}

impl vstd::std_specs::convert::FromSpecImpl<u8> for Port3TxqSplitForQ1 {
    open spec fn obeys_from_spec() -> bool {
        true
    }

    open spec fn from_spec(bits: u8) -> Port3TxqSplitForQ1 {
        <Port3TxqSplitForQ1 as Register>::spec_from_bits(bits)
    }
}

impl From<Port3TxqSplitForQ1> for u8 {
    fn from(r: Port3TxqSplitForQ1) -> (bits: u8) {
        r.bits
    }
}

impl vstd::std_specs::convert::FromSpecImpl<Port3TxqSplitForQ1> for u8 {
    open spec fn obeys_from_spec() -> bool {
        true
    }

    open spec fn from_spec(r: Port3TxqSplitForQ1) -> u8 {
        r@
    }
}

impl From<Port3TxqSplitForQ1> for State {
    fn from(r: Port3TxqSplitForQ1) -> (s: State) {
        State::Port3TxqSplitForQ1(r)
    }
}

impl vstd::std_specs::convert::FromSpecImpl<Port3TxqSplitForQ1> for State {
    open spec fn obeys_from_spec() -> bool {
        true
    }

    open spec fn from_spec(r: Port3TxqSplitForQ1) -> State {
        State::Port3TxqSplitForQ1(r)
    }
}

impl core::convert::TryFrom<State> for Port3TxqSplitForQ1 {
    type Error = InvalidAddress;

    fn try_from(s: State) -> (r: Result<Port3TxqSplitForQ1, InvalidAddress>) {
        match s {
            State::Port3TxqSplitForQ1(r) => Ok(r),
            _ => Err(InvalidAddress),
        }
    }
}

impl vstd::std_specs::convert::TryFromSpecImpl<State> for Port3TxqSplitForQ1 {
    open spec fn obeys_try_from_spec() -> bool {
        true
    }

    open spec fn try_from_spec(s: State) -> Result<Port3TxqSplitForQ1, InvalidAddress> {
        match s {
            State::Port3TxqSplitForQ1(r) => Ok(r),
            _ => Err(InvalidAddress),
        }
    }
}

impl Port3TxqSplitForQ1 {
    /// Provides read access to the individual fields of the register.
    pub fn read(&self) -> (r: R<Port3TxqSplitForQ1>)
        ensures
            r.0 == *self,
    {
        R(*self)
    }

    /// Provides write access to the individual fields of the register.
    pub fn write(self) -> (w: W<Port3TxqSplitForQ1>)
        ensures
            w.0 == self,
    {
        W(self)
    }
}

impl R<Port3TxqSplitForQ1> {
    /// Read access to the `priority_select` field.
    pub fn priority_select(&self) -> (f: BitR)
        ensures
            f.bit == (self.0@ & 0x80 != 0),
    {
        BitR { bit: self.0.bits & 0x80 != 0 }
    }
}

impl W<Port3TxqSplitForQ1> {
    /// Write access to the `priority_select` field.
    pub fn priority_select(self) -> (f: BitW<Port3TxqSplitForQ1>)
        ensures
            f.w == self,
            f.mask == 0x80,
    {
        BitW { w: self, mask: 0x80 }
    }
}

/// The `Port3TxqSplitForQ0` register, at address `0xba`.
#[derive(Clone, Copy, Debug, PartialEq, Eq, Structural, Hash)]
pub struct Port3TxqSplitForQ0 {
    bits: u8,
}

impl View for Port3TxqSplitForQ0 {
    type V = u8;

    closed spec fn view(&self) -> u8 {
        self.bits
    }
}

impl Register for Port3TxqSplitForQ0 {
    open spec fn spec_address() -> Address {
        Address::Port3TxqSplitForQ0
    }

    closed spec fn spec_from_bits(bits: u8) -> Port3TxqSplitForQ0 {
        Port3TxqSplitForQ0 { bits }
    }

    proof fn lemma_from_bits(bits: u8) {
    }

    fn address() -> (a: Address) {
        Address::Port3TxqSplitForQ0
    }

    fn from_bits(bits: u8) -> (r: Port3TxqSplitForQ0) {
        Port3TxqSplitForQ0 { bits }
    }

    fn to_bits(&self) -> (b: u8) {
        self.bits
    }
}

impl Default for Port3TxqSplitForQ0 {
    fn default() -> (r: Port3TxqSplitForQ0)
        ensures
            r@ == default_bits(Address::Port3TxqSplitForQ0),
    {
        Port3TxqSplitForQ0 { bits: 0x80 }
    }
}

impl From<u8> for Port3TxqSplitForQ0 {
    fn from(bits: u8) -> (r: Port3TxqSplitForQ0) {
        Port3TxqSplitForQ0 { bits }
    }
}

impl vstd::std_specs::convert::FromSpecImpl<u8> for Port3TxqSplitForQ0 {
    open spec fn obeys_from_spec() -> bool {
        true
    }

    open spec fn from_spec(bits: u8) -> Port3TxqSplitForQ0 {
        <Port3TxqSplitForQ0 as Register>::spec_from_bits(bits)
    }
}

impl From<Port3TxqSplitForQ0> for u8 {
    fn from(r: Port3TxqSplitForQ0) -> (bits: u8) {
        r.bits
    }
}

impl vstd::std_specs::convert::FromSpecImpl<Port3TxqSplitForQ0> for u8 {
    open spec fn obeys_from_spec() -> bool {
        true
    }

    open spec fn from_spec(r: Port3TxqSplitForQ0) -> u8 {
        r@
    }
}

impl From<Port3TxqSplitForQ0> for State {
    fn from(r: Port3TxqSplitForQ0) -> (s: State) {
        State::Port3TxqSplitForQ0(r)
    }
}

impl vstd::std_specs::convert::FromSpecImpl<Port3TxqSplitForQ0> for State {
    open spec fn obeys_from_spec() -> bool {
        true
    }

    open spec fn from_spec(r: Port3TxqSplitForQ0) -> State {
        State::Port3TxqSplitForQ0(r)
    }
}

impl core::convert::TryFrom<State> for Port3TxqSplitForQ0 {
    type Error = InvalidAddress;

    fn try_from(s: State) -> (r: Result<Port3TxqSplitForQ0, InvalidAddress>) {
        match s {
            State::Port3TxqSplitForQ0(r) => Ok(r),
            _ => Err(InvalidAddress),
        }
    }
}

impl vstd::std_specs::convert::TryFromSpecImpl<State> for Port3TxqSplitForQ0 {
    open spec fn obeys_try_from_spec() -> bool {
        true
    }

    open spec fn try_from_spec(s: State) -> Result<Port3TxqSplitForQ0, InvalidAddress> {
        match s {
            State::Port3TxqSplitForQ0(r) => Ok(r),
            _ => Err(InvalidAddress),
        }
    }
}

impl Port3TxqSplitForQ0 {
    /// Provides read access to the individual fields of the register.
    pub fn read(&self) -> (r: R<Port3TxqSplitForQ0>)
        ensures
            r.0 == *self,
    {
        R(*self)
    }

    /// Provides write access to the individual fields of the register.
    pub fn write(self) -> (w: W<Port3TxqSplitForQ0>)
        ensures
            w.0 == self,
    {
        W(self)
    }
}

impl R<Port3TxqSplitForQ0> {
    /// Read access to the `priority_select` field.
    pub fn priority_select(&self) -> (f: BitR)
        ensures
            f.bit == (self.0@ & 0x80 != 0),
    {
        BitR { bit: self.0.bits & 0x80 != 0 }
    }
}

impl W<Port3TxqSplitForQ0> {
    /// Write access to the `priority_select` field.
    pub fn priority_select(self) -> (f: BitW<Port3TxqSplitForQ0>)
        ensures
            f.w == self,
            f.mask == 0x80,
    {
        BitW { w: self, mask: 0x80 }
    }
}

/// The `InterruptEnable` register, at address `0xbb`.
#[derive(Clone, Copy, Debug, PartialEq, Eq, Structural, Hash)]
pub struct InterruptEnable {
    bits: u8,
}

impl View for InterruptEnable {
    type V = u8;

    closed spec fn view(&self) -> u8 {
        self.bits
    }
}

impl Register for InterruptEnable {
    open spec fn spec_address() -> Address {
        Address::InterruptEnable
    }

    closed spec fn spec_from_bits(bits: u8) -> InterruptEnable {
        InterruptEnable { bits }
    }

    proof fn lemma_from_bits(bits: u8) {
    }

    fn address() -> (a: Address) {
        Address::InterruptEnable
    }

    fn from_bits(bits: u8) -> (r: InterruptEnable) {
        InterruptEnable { bits }
    }

    fn to_bits(&self) -> (b: u8) {
        self.bits
    }
}

impl Default for InterruptEnable {
    fn default() -> (r: InterruptEnable)
        ensures
            r@ == default_bits(Address::InterruptEnable),
    {
        InterruptEnable { bits: 0x00 }
    }
}

impl From<u8> for InterruptEnable {
    fn from(bits: u8) -> (r: InterruptEnable) {
        InterruptEnable { bits }
    }
}

impl vstd::std_specs::convert::FromSpecImpl<u8> for InterruptEnable {
    open spec fn obeys_from_spec() -> bool {
        true
    }

    open spec fn from_spec(bits: u8) -> InterruptEnable {
        <InterruptEnable as Register>::spec_from_bits(bits)
    }
}

impl From<InterruptEnable> for u8 {
    fn from(r: InterruptEnable) -> (bits: u8) {
        r.bits
    }
}

impl vstd::std_specs::convert::FromSpecImpl<InterruptEnable> for u8 {
    open spec fn obeys_from_spec() -> bool {
        true
    }

    open spec fn from_spec(r: InterruptEnable) -> u8 {
        r@
    }
}

impl From<InterruptEnable> for State {
    fn from(r: InterruptEnable) -> (s: State) {
        State::InterruptEnable(r)
    }
}

impl vstd::std_specs::convert::FromSpecImpl<InterruptEnable> for State {
    open spec fn obeys_from_spec() -> bool {
        true
    }

    open spec fn from_spec(r: InterruptEnable) -> State {
        State::InterruptEnable(r)
    }
}

impl core::convert::TryFrom<State> for InterruptEnable {
    type Error = InvalidAddress;

    fn try_from(s: State) -> (r: Result<InterruptEnable, InvalidAddress>) {
        match s {
            State::InterruptEnable(r) => Ok(r),
            _ => Err(InvalidAddress),
        }
    }
}

impl vstd::std_specs::convert::TryFromSpecImpl<State> for InterruptEnable {
    open spec fn obeys_try_from_spec() -> bool {
        true
    }

    open spec fn try_from_spec(s: State) -> Result<InterruptEnable, InvalidAddress> {
        match s {
            State::InterruptEnable(r) => Ok(r),
            _ => Err(InvalidAddress),
        }
    }
}

impl InterruptEnable {
    /// Provides read access to the individual fields of the register.
    pub fn read(&self) -> (r: R<InterruptEnable>)
        ensures
            r.0 == *self,
    {
        R(*self)
    }

    /// Provides write access to the individual fields of the register.
    pub fn write(self) -> (w: W<InterruptEnable>)
        ensures
            w.0 == self,
    {
        W(self)
    }
}

impl R<InterruptEnable> {
    /// Read access to the `reg` field.
    pub fn reg(&self) -> (f: BitsR<u8>)
        ensures
            f.bits == load8(self.0@, 0xff, 0),
    {
        BitsR { bits: (self.0.bits & 0xff) >> 0u8 }
    }
}

impl W<InterruptEnable> {
    /// Write access to the `reg` field.
    pub fn reg(self) -> (f: BitsW<InterruptEnable>)
        ensures
            f.w == self,
            f.mask == 0xff,
            f.shift == 0,
    {
        BitsW { w: self, mask: 0xff, shift: 0 }
    }
}

/// The `LinkChangeInterrupt` register, at address `0xbc`.
#[derive(Clone, Copy, Debug, PartialEq, Eq, Structural, Hash)]
pub struct LinkChangeInterrupt {
    bits: u8,
}

impl View for LinkChangeInterrupt {
    type V = u8;

    closed spec fn view(&self) -> u8 {
        self.bits
    }
}

impl Register for LinkChangeInterrupt {
    open spec fn spec_address() -> Address {
        Address::LinkChangeInterrupt
    }

    closed spec fn spec_from_bits(bits: u8) -> LinkChangeInterrupt {
        LinkChangeInterrupt { bits }
    }

    proof fn lemma_from_bits(bits: u8) {
    }

    fn address() -> (a: Address) {
        Address::LinkChangeInterrupt
    }

    fn from_bits(bits: u8) -> (r: LinkChangeInterrupt) {
        LinkChangeInterrupt { bits }
    }

    fn to_bits(&self) -> (b: u8) {
        self.bits
    }
}

impl Default for LinkChangeInterrupt {
    fn default() -> (r: LinkChangeInterrupt)
        ensures
            r@ == default_bits(Address::LinkChangeInterrupt),
    {
        LinkChangeInterrupt { bits: 0x00 }
    }
}

impl From<u8> for LinkChangeInterrupt {
    fn from(bits: u8) -> (r: LinkChangeInterrupt) {
        LinkChangeInterrupt { bits }
    }
}

impl vstd::std_specs::convert::FromSpecImpl<u8> for LinkChangeInterrupt {
    open spec fn obeys_from_spec() -> bool {
        true
    }

    open spec fn from_spec(bits: u8) -> LinkChangeInterrupt {
        <LinkChangeInterrupt as Register>::spec_from_bits(bits)
    }
}

impl From<LinkChangeInterrupt> for u8 {
    fn from(r: LinkChangeInterrupt) -> (bits: u8) {
        r.bits
    }
}

impl vstd::std_specs::convert::FromSpecImpl<LinkChangeInterrupt> for u8 {
    open spec fn obeys_from_spec() -> bool {
        true
    }

    open spec fn from_spec(r: LinkChangeInterrupt) -> u8 {
        r@
    }
}

impl From<LinkChangeInterrupt> for State {
    fn from(r: LinkChangeInterrupt) -> (s: State) {
        State::LinkChangeInterrupt(r)
    }
}

impl vstd::std_specs::convert::FromSpecImpl<LinkChangeInterrupt> for State {
    open spec fn obeys_from_spec() -> bool {
        true
    }

    open spec fn from_spec(r: LinkChangeInterrupt) -> State {
        State::LinkChangeInterrupt(r)
    }
}

impl core::convert::TryFrom<State> for LinkChangeInterrupt {
    type Error = InvalidAddress;

    fn try_from(s: State) -> (r: Result<LinkChangeInterrupt, InvalidAddress>) {
        match s {
            State::LinkChangeInterrupt(r) => Ok(r),
            _ => Err(InvalidAddress),
        }
    }
}

impl vstd::std_specs::convert::TryFromSpecImpl<State> for LinkChangeInterrupt {
    open spec fn obeys_try_from_spec() -> bool {
        true
    }

    open spec fn try_from_spec(s: State) -> Result<LinkChangeInterrupt, InvalidAddress> {
        match s {
            State::LinkChangeInterrupt(r) => Ok(r),
            _ => Err(InvalidAddress),
        }
    }
}

impl LinkChangeInterrupt {
    /// Provides read access to the individual fields of the register.
    pub fn read(&self) -> (r: R<LinkChangeInterrupt>)
        ensures
            r.0 == *self,
    {
        R(*self)
    }

    /// Provides write access to the individual fields of the register.
    pub fn write(self) -> (w: W<LinkChangeInterrupt>)
        ensures
            w.0 == self,
    {
        W(self)
    }
}

impl R<LinkChangeInterrupt> {
    /// Read access to the `p1_p2` field.
    pub fn p1_p2(&self) -> (f: BitR)
        ensures
            f.bit == (self.0@ & 0x80 != 0),
    {
        BitR { bit: self.0.bits & 0x80 != 0 }
    }

    /// Read access to the `p3` field.
    pub fn p3(&self) -> (f: BitR)
        ensures
            f.bit == (self.0@ & 0x04 != 0),
    {
        BitR { bit: self.0.bits & 0x04 != 0 }
    }

    /// Read access to the `p2` field.
    pub fn p2(&self) -> (f: BitR)
        ensures
            f.bit == (self.0@ & 0x02 != 0),
    {
        BitR { bit: self.0.bits & 0x02 != 0 }
    }

    /// Read access to the `p1` field.
    pub fn p1(&self) -> (f: BitR)
        ensures
            f.bit == (self.0@ & 0x01 != 0),
    {
        BitR { bit: self.0.bits & 0x01 != 0 }
    }
}

impl W<LinkChangeInterrupt> {
    /// Write access to the `p1_p2` field.
    pub fn p1_p2(self) -> (f: BitW<LinkChangeInterrupt>)
        ensures
            f.w == self,
            f.mask == 0x80,
    {
        BitW { w: self, mask: 0x80 }
    }

    /// Write access to the `p3` field.
    pub fn p3(self) -> (f: BitW<LinkChangeInterrupt>)
        ensures
            f.w == self,
            f.mask == 0x04,
    {
        BitW { w: self, mask: 0x04 }
    }

    /// Write access to the `p2` field.
    pub fn p2(self) -> (f: BitW<LinkChangeInterrupt>)
        ensures
            f.w == self,
            f.mask == 0x02,
    {
        BitW { w: self, mask: 0x02 }
    }

    /// Write access to the `p1` field.
    pub fn p1(self) -> (f: BitW<LinkChangeInterrupt>)
        ensures
            f.w == self,
            f.mask == 0x01,
    {
        BitW { w: self, mask: 0x01 }
    }
}

/// The `ForcePauseOff` register, at address `0xbd`.
#[derive(Clone, Copy, Debug, PartialEq, Eq, Structural, Hash)]
pub struct ForcePauseOff {
    bits: u8,
}

impl View for ForcePauseOff {
    type V = u8;

    closed spec fn view(&self) -> u8 {
        self.bits
    }
}

impl Register for ForcePauseOff {
    open spec fn spec_address() -> Address {
        Address::ForcePauseOff
    }

    closed spec fn spec_from_bits(bits: u8) -> ForcePauseOff {
        ForcePauseOff { bits }
    }

    proof fn lemma_from_bits(bits: u8) {
    }

    fn address() -> (a: Address) {
        Address::ForcePauseOff
    }

    fn from_bits(bits: u8) -> (r: ForcePauseOff) {
        ForcePauseOff { bits }
    }

    fn to_bits(&self) -> (b: u8) {
        self.bits
    }
}

impl Default for ForcePauseOff {
    fn default() -> (r: ForcePauseOff)
        ensures
            r@ == default_bits(Address::ForcePauseOff),
    {
        ForcePauseOff { bits: 0x00 }
    }
}

impl From<u8> for ForcePauseOff {
    fn from(bits: u8) -> (r: ForcePauseOff) {
        ForcePauseOff { bits }
    }
}

impl vstd::std_specs::convert::FromSpecImpl<u8> for ForcePauseOff {
    open spec fn obeys_from_spec() -> bool {
        true
    }

    open spec fn from_spec(bits: u8) -> ForcePauseOff {
        <ForcePauseOff as Register>::spec_from_bits(bits)
    }
}

impl From<ForcePauseOff> for u8 {
    fn from(r: ForcePauseOff) -> (bits: u8) {
        r.bits
    }
}

impl vstd::std_specs::convert::FromSpecImpl<ForcePauseOff> for u8 {
    open spec fn obeys_from_spec() -> bool {
        true
    }

    open spec fn from_spec(r: ForcePauseOff) -> u8 {
        r@
    }
}

impl From<ForcePauseOff> for State {
    fn from(r: ForcePauseOff) -> (s: State) {
        State::ForcePauseOff(r)
    }
}

impl vstd::std_specs::convert::FromSpecImpl<ForcePauseOff> for State {
    open spec fn obeys_from_spec() -> bool {
        true
    }

    open spec fn from_spec(r: ForcePauseOff) -> State {
        State::ForcePauseOff(r)
    }
}

impl core::convert::TryFrom<State> for ForcePauseOff {
    type Error = InvalidAddress;

    fn try_from(s: State) -> (r: Result<ForcePauseOff, InvalidAddress>) {
        match s {
            State::ForcePauseOff(r) => Ok(r),
            _ => Err(InvalidAddress),
        }
    }
}

impl vstd::std_specs::convert::TryFromSpecImpl<State> for ForcePauseOff {
    open spec fn obeys_try_from_spec() -> bool {
        true
    }

    open spec fn try_from_spec(s: State) -> Result<ForcePauseOff, InvalidAddress> {
        match s {
            State::ForcePauseOff(r) => Ok(r),
            _ => Err(InvalidAddress),
        }
    }
}

impl ForcePauseOff {
    /// Provides read access to the individual fields of the register.
    pub fn read(&self) -> (r: R<ForcePauseOff>)
        ensures
            r.0 == *self,
    {
        R(*self)
    }

    /// Provides write access to the individual fields of the register.
    pub fn write(self) -> (w: W<ForcePauseOff>)
        ensures
            w.0 == self,
    {
        W(self)
    }
}

impl R<ForcePauseOff> {
    /// Read access to the `iteration_limit_enable` field.
    pub fn iteration_limit_enable(&self) -> (f: BitsR<u8>)
        ensures
            f.bits == load8(self.0@, 0xff, 0),
    {
        BitsR { bits: (self.0.bits & 0xff) >> 0u8 }
    }
}

impl W<ForcePauseOff> {
    /// Write access to the `iteration_limit_enable` field.
    pub fn iteration_limit_enable(self) -> (f: BitsW<ForcePauseOff>)
        ensures
            f.w == self,
            f.mask == 0xff,
            f.shift == 0,
    {
        BitsW { w: self, mask: 0xff, shift: 0 }
    }
}

/// The `FiberSignalThreshold` register, at address `0xc0`.
#[derive(Clone, Copy, Debug, PartialEq, Eq, Structural, Hash)]
pub struct FiberSignalThreshold {
    bits: u8,
}

impl View for FiberSignalThreshold {
    type V = u8;

    closed spec fn view(&self) -> u8 {
        self.bits
    }
}

impl Register for FiberSignalThreshold {
    open spec fn spec_address() -> Address {
        Address::FiberSignalThreshold
    }

    closed spec fn spec_from_bits(bits: u8) -> FiberSignalThreshold {
        FiberSignalThreshold { bits }
    }

    proof fn lemma_from_bits(bits: u8) {
    }

    fn address() -> (a: Address) {
        Address::FiberSignalThreshold
    }

    fn from_bits(bits: u8) -> (r: FiberSignalThreshold) {
        FiberSignalThreshold { bits }
    }

    fn to_bits(&self) -> (b: u8) {
        self.bits
    }
}

impl Default for FiberSignalThreshold {
    fn default() -> (r: FiberSignalThreshold)
        ensures
            r@ == default_bits(Address::FiberSignalThreshold),
    {
        FiberSignalThreshold { bits: 0x00 }
    }
}

impl From<u8> for FiberSignalThreshold {
    fn from(bits: u8) -> (r: FiberSignalThreshold) {
        FiberSignalThreshold { bits }
    }
}

impl vstd::std_specs::convert::FromSpecImpl<u8> for FiberSignalThreshold {
    open spec fn obeys_from_spec() -> bool {
        true
    }

    open spec fn from_spec(bits: u8) -> FiberSignalThreshold {
        <FiberSignalThreshold as Register>::spec_from_bits(bits)
    }
}

impl From<FiberSignalThreshold> for u8 {
    fn from(r: FiberSignalThreshold) -> (bits: u8) {
        r.bits
    }
}

impl vstd::std_specs::convert::FromSpecImpl<FiberSignalThreshold> for u8 {
    open spec fn obeys_from_spec() -> bool {
        true
    }

    open spec fn from_spec(r: FiberSignalThreshold) -> u8 {
        r@
    }
}

impl From<FiberSignalThreshold> for State {
    fn from(r: FiberSignalThreshold) -> (s: State) {
        State::FiberSignalThreshold(r)
    }
}

impl vstd::std_specs::convert::FromSpecImpl<FiberSignalThreshold> for State {
    open spec fn obeys_from_spec() -> bool {
        true
    }

    open spec fn from_spec(r: FiberSignalThreshold) -> State {
        State::FiberSignalThreshold(r)
    }
}

impl core::convert::TryFrom<State> for FiberSignalThreshold {
    type Error = InvalidAddress;

    fn try_from(s: State) -> (r: Result<FiberSignalThreshold, InvalidAddress>) {
        match s {
            State::FiberSignalThreshold(r) => Ok(r),
            _ => Err(InvalidAddress),
        }
    }
}

impl vstd::std_specs::convert::TryFromSpecImpl<State> for FiberSignalThreshold {
    open spec fn obeys_try_from_spec() -> bool {
        true
    }

    open spec fn try_from_spec(s: State) -> Result<FiberSignalThreshold, InvalidAddress> {
        match s {
            State::FiberSignalThreshold(r) => Ok(r),
            _ => Err(InvalidAddress),
        }
    }
}

impl FiberSignalThreshold {
    /// Provides read access to the individual fields of the register.
    pub fn read(&self) -> (r: R<FiberSignalThreshold>)
        ensures
            r.0 == *self,
    {
        R(*self)
    }

    /// Provides write access to the individual fields of the register.
    pub fn write(self) -> (w: W<FiberSignalThreshold>)
        ensures
            w.0 == self,
    {
        W(self)
    }
}

impl R<FiberSignalThreshold> {
    /// Read access to the `port2` field.
    pub fn port2(&self) -> (f: BitR)
        ensures
            f.bit == (self.0@ & 0x80 != 0),
    {
        BitR { bit: self.0.bits & 0x80 != 0 }
    }

    /// Read access to the `port1` field.
    pub fn port1(&self) -> (f: BitR)
        ensures
            f.bit == (self.0@ & 0x40 != 0),
    {
        BitR { bit: self.0.bits & 0x40 != 0 }
    }
}

impl W<FiberSignalThreshold> {
    /// Write access to the `port2` field.
    pub fn port2(self) -> (f: BitW<FiberSignalThreshold>)
        ensures
            f.w == self,
            f.mask == 0x80,
    {
        BitW { w: self, mask: 0x80 }
    }

    /// Write access to the `port1` field.
    pub fn port1(self) -> (f: BitW<FiberSignalThreshold>)
        ensures
            f.w == self,
            f.mask == 0x40,
    {
        BitW { w: self, mask: 0x40 }
    }
}

/// The `InternalLdoCtrl` register, at address `0xc1`.
#[derive(Clone, Copy, Debug, PartialEq, Eq, Structural, Hash)]
pub struct InternalLdoCtrl {
    bits: u8,
}

impl View for InternalLdoCtrl {
    type V = u8;

    closed spec fn view(&self) -> u8 {
        self.bits
    }
}

impl Register for InternalLdoCtrl {
    open spec fn spec_address() -> Address {
        Address::InternalLdoCtrl
    }

    closed spec fn spec_from_bits(bits: u8) -> InternalLdoCtrl {
        InternalLdoCtrl { bits }
    }

    proof fn lemma_from_bits(bits: u8) {
    }

    fn address() -> (a: Address) {
        Address::InternalLdoCtrl
    }

    fn from_bits(bits: u8) -> (r: InternalLdoCtrl) {
        InternalLdoCtrl { bits }
    }

    fn to_bits(&self) -> (b: u8) {
        self.bits
    }
}

impl Default for InternalLdoCtrl {
    fn default() -> (r: InternalLdoCtrl)
        ensures
            r@ == default_bits(Address::InternalLdoCtrl),
    {
        InternalLdoCtrl { bits: 0x00 }
    }
}

impl From<u8> for InternalLdoCtrl {
    fn from(bits: u8) -> (r: InternalLdoCtrl) {
        InternalLdoCtrl { bits }
    }
}

impl vstd::std_specs::convert::FromSpecImpl<u8> for InternalLdoCtrl {
    open spec fn obeys_from_spec() -> bool {
        true
    }

    open spec fn from_spec(bits: u8) -> InternalLdoCtrl {
        <InternalLdoCtrl as Register>::spec_from_bits(bits)
    }
}

impl From<InternalLdoCtrl> for u8 {
    fn from(r: InternalLdoCtrl) -> (bits: u8) {
        r.bits
    }
}

impl vstd::std_specs::convert::FromSpecImpl<InternalLdoCtrl> for u8 {
    open spec fn obeys_from_spec() -> bool {
        true
    }

    open spec fn from_spec(r: InternalLdoCtrl) -> u8 {
        r@
    }
}

impl From<InternalLdoCtrl> for State {
    fn from(r: InternalLdoCtrl) -> (s: State) {
        State::InternalLdoCtrl(r)
    }
}

impl vstd::std_specs::convert::FromSpecImpl<InternalLdoCtrl> for State {
    open spec fn obeys_from_spec() -> bool {
        true
    }

    open spec fn from_spec(r: InternalLdoCtrl) -> State {
        State::InternalLdoCtrl(r)
    }
}

impl core::convert::TryFrom<State> for InternalLdoCtrl {
    type Error = InvalidAddress;

    fn try_from(s: State) -> (r: Result<InternalLdoCtrl, InvalidAddress>) {
        match s {
            State::InternalLdoCtrl(r) => Ok(r),
            _ => Err(InvalidAddress),
        }
    }
}

impl vstd::std_specs::convert::TryFromSpecImpl<State> for InternalLdoCtrl {
    open spec fn obeys_try_from_spec() -> bool {
        true
    }

    open spec fn try_from_spec(s: State) -> Result<InternalLdoCtrl, InvalidAddress> {
        match s {
            State::InternalLdoCtrl(r) => Ok(r),
            _ => Err(InvalidAddress),
        }
    }
}

impl InternalLdoCtrl {
    /// Provides read access to the individual fields of the register.
    pub fn read(&self) -> (r: R<InternalLdoCtrl>)
        ensures
            r.0 == *self,
    {
        R(*self)
    }

    /// Provides write access to the individual fields of the register.
    pub fn write(self) -> (w: W<InternalLdoCtrl>)
        ensures
            w.0 == self,
    {
        W(self)
    }
}

impl R<InternalLdoCtrl> {
    /// Read access to the `disable` field.
    pub fn disable(&self) -> (f: BitR)
        ensures
            f.bit == (self.0@ & 0x40 != 0),
    {
        BitR { bit: self.0.bits & 0x40 != 0 }
    }
}

impl W<InternalLdoCtrl> {
    /// Write access to the `disable` field.
    pub fn disable(self) -> (f: BitW<InternalLdoCtrl>)
        ensures
            f.w == self,
            f.mask == 0x40,
    {
        BitW { w: self, mask: 0x40 }
    }
}

/// The `InsertSrcPvid` register, at address `0xc2`.
#[derive(Clone, Copy, Debug, PartialEq, Eq, Structural, Hash)]
pub struct InsertSrcPvid {
    bits: u8,
}

impl View for InsertSrcPvid {
    type V = u8;

    closed spec fn view(&self) -> u8 {
        self.bits
    }
}

impl Register for InsertSrcPvid {
    open spec fn spec_address() -> Address {
        Address::InsertSrcPvid
    }

    closed spec fn spec_from_bits(bits: u8) -> InsertSrcPvid {
        InsertSrcPvid { bits }
    }

    proof fn lemma_from_bits(bits: u8) {
    }

    fn address() -> (a: Address) {
        Address::InsertSrcPvid
    }

    fn from_bits(bits: u8) -> (r: InsertSrcPvid) {
        InsertSrcPvid { bits }
    }

    fn to_bits(&self) -> (b: u8) {
        self.bits
    }
}

impl Default for InsertSrcPvid {
    fn default() -> (r: InsertSrcPvid)
        ensures
            r@ == default_bits(Address::InsertSrcPvid),
    {
        InsertSrcPvid { bits: 0x00 }
    }
}

impl From<u8> for InsertSrcPvid {
    fn from(bits: u8) -> (r: InsertSrcPvid) {
        InsertSrcPvid { bits }
    }
}

impl vstd::std_specs::convert::FromSpecImpl<u8> for InsertSrcPvid {
    open spec fn obeys_from_spec() -> bool {
        true
    }

    open spec fn from_spec(bits: u8) -> InsertSrcPvid {
        <InsertSrcPvid as Register>::spec_from_bits(bits)
    }
}

impl From<InsertSrcPvid> for u8 {
    fn from(r: InsertSrcPvid) -> (bits: u8) {
        r.bits
    }
}

impl vstd::std_specs::convert::FromSpecImpl<InsertSrcPvid> for u8 {
    open spec fn obeys_from_spec() -> bool {
        true
    }

    open spec fn from_spec(r: InsertSrcPvid) -> u8 {
        r@
    }
}

impl From<InsertSrcPvid> for State {
    fn from(r: InsertSrcPvid) -> (s: State) {
        State::InsertSrcPvid(r)
    }
}

impl vstd::std_specs::convert::FromSpecImpl<InsertSrcPvid> for State {
    open spec fn obeys_from_spec() -> bool {
        true
    }

    open spec fn from_spec(r: InsertSrcPvid) -> State {
        State::InsertSrcPvid(r)
    }
}

impl core::convert::TryFrom<State> for InsertSrcPvid {
    type Error = InvalidAddress;

    fn try_from(s: State) -> (r: Result<InsertSrcPvid, InvalidAddress>) {
        match s {
            State::InsertSrcPvid(r) => Ok(r),
            _ => Err(InvalidAddress),
        }
    }
}

impl vstd::std_specs::convert::TryFromSpecImpl<State> for InsertSrcPvid {
    open spec fn obeys_try_from_spec() -> bool {
        true
    }

    open spec fn try_from_spec(s: State) -> Result<InsertSrcPvid, InvalidAddress> {
        match s {
            State::InsertSrcPvid(r) => Ok(r),
            _ => Err(InvalidAddress),
        }
    }
}

impl InsertSrcPvid {
    /// Provides read access to the individual fields of the register.
    pub fn read(&self) -> (r: R<InsertSrcPvid>)
        ensures
            r.0 == *self,
    {
        R(*self)
    }

    /// Provides write access to the individual fields of the register.
    pub fn write(self) -> (w: W<InsertSrcPvid>)
        ensures
            w.0 == self,
    {
        W(self)
    }
}

impl R<InsertSrcPvid> {
    /// Read access to the `p1_at_p2` field.
    pub fn p1_at_p2(&self) -> (f: BitR)
        ensures
            f.bit == (self.0@ & 0x20 != 0),
    {
        BitR { bit: self.0.bits & 0x20 != 0 }
    }

    /// Read access to the `p1_at_p3` field.
    pub fn p1_at_p3(&self) -> (f: BitR)
        ensures
            f.bit == (self.0@ & 0x10 != 0),
    {
        BitR { bit: self.0.bits & 0x10 != 0 }
    }

    /// Read access to the `p2_at_p1` field.
    pub fn p2_at_p1(&self) -> (f: BitR)
        ensures
            f.bit == (self.0@ & 0x08 != 0),
    {
        BitR { bit: self.0.bits & 0x08 != 0 }
    }

    /// Read access to the `p2_at_p3` field.
    pub fn p2_at_p3(&self) -> (f: BitR)
        ensures
            f.bit == (self.0@ & 0x04 != 0),
    {
        BitR { bit: self.0.bits & 0x04 != 0 }
    }

    /// Read access to the `p3_at_p1` field.
    pub fn p3_at_p1(&self) -> (f: BitR)
        ensures
            f.bit == (self.0@ & 0x02 != 0),
    {
        BitR { bit: self.0.bits & 0x02 != 0 }
    }

    /// Read access to the `p3_at_p2` field.
    pub fn p3_at_p2(&self) -> (f: BitR)
        ensures
            f.bit == (self.0@ & 0x01 != 0),
    {
        BitR { bit: self.0.bits & 0x01 != 0 }
    }
}

impl W<InsertSrcPvid> {
    /// Write access to the `p1_at_p2` field.
    pub fn p1_at_p2(self) -> (f: BitW<InsertSrcPvid>)
        ensures
            f.w == self,
            f.mask == 0x20,
    {
        BitW { w: self, mask: 0x20 }
    }

    /// Write access to the `p1_at_p3` field.
    pub fn p1_at_p3(self) -> (f: BitW<InsertSrcPvid>)
        ensures
            f.w == self,
            f.mask == 0x10,
    {
        BitW { w: self, mask: 0x10 }
    }

    /// Write access to the `p2_at_p1` field.
    pub fn p2_at_p1(self) -> (f: BitW<InsertSrcPvid>)
        ensures
            f.w == self,
            f.mask == 0x08,
    {
        BitW { w: self, mask: 0x08 }
    }

    /// Write access to the `p2_at_p3` field.
    pub fn p2_at_p3(self) -> (f: BitW<InsertSrcPvid>)
        ensures
            f.w == self,
            f.mask == 0x04,
    {
        BitW { w: self, mask: 0x04 }
    }

    /// Write access to the `p3_at_p1` field.
    pub fn p3_at_p1(self) -> (f: BitW<InsertSrcPvid>)
        ensures
            f.w == self,
            f.mask == 0x02,
    {
        BitW { w: self, mask: 0x02 }
    }

    /// Write access to the `p3_at_p2` field.
    pub fn p3_at_p2(self) -> (f: BitW<InsertSrcPvid>)
        ensures
            f.w == self,
            f.mask == 0x01,
    {
        BitW { w: self, mask: 0x01 }
    }
}

/// The `PwrMgmtAndLedMode` register, at address `0xc3`.
#[derive(Clone, Copy, Debug, PartialEq, Eq, Structural, Hash)]
pub struct PwrMgmtAndLedMode {
    bits: u8,
}

impl View for PwrMgmtAndLedMode {
    type V = u8;

    closed spec fn view(&self) -> u8 {
        self.bits
    }
}

impl Register for PwrMgmtAndLedMode {
    open spec fn spec_address() -> Address {
        Address::PwrMgmtAndLedMode
    }

    closed spec fn spec_from_bits(bits: u8) -> PwrMgmtAndLedMode {
        PwrMgmtAndLedMode { bits }
    }

    proof fn lemma_from_bits(bits: u8) {
    }

    fn address() -> (a: Address) {
        Address::PwrMgmtAndLedMode
    }

    fn from_bits(bits: u8) -> (r: PwrMgmtAndLedMode) {
        PwrMgmtAndLedMode { bits }
    }

    fn to_bits(&self) -> (b: u8) {
        self.bits
    }
}

impl Default for PwrMgmtAndLedMode {
    fn default() -> (r: PwrMgmtAndLedMode)
        ensures
            r@ == default_bits(Address::PwrMgmtAndLedMode),
    {
        PwrMgmtAndLedMode { bits: 0x00 }
    }
}

impl From<u8> for PwrMgmtAndLedMode {
    fn from(bits: u8) -> (r: PwrMgmtAndLedMode) {
        PwrMgmtAndLedMode { bits }
    }
}

impl vstd::std_specs::convert::FromSpecImpl<u8> for PwrMgmtAndLedMode {
    open spec fn obeys_from_spec() -> bool {
        true
    }

    open spec fn from_spec(bits: u8) -> PwrMgmtAndLedMode {
        <PwrMgmtAndLedMode as Register>::spec_from_bits(bits)
    }
}

impl From<PwrMgmtAndLedMode> for u8 {
    fn from(r: PwrMgmtAndLedMode) -> (bits: u8) {
        r.bits
    }
}

impl vstd::std_specs::convert::FromSpecImpl<PwrMgmtAndLedMode> for u8 {
    open spec fn obeys_from_spec() -> bool {
        true
    }

    open spec fn from_spec(r: PwrMgmtAndLedMode) -> u8 {
        r@
    }
}

impl From<PwrMgmtAndLedMode> for State {
    fn from(r: PwrMgmtAndLedMode) -> (s: State) {
        State::PwrMgmtAndLedMode(r)
    }
}

impl vstd::std_specs::convert::FromSpecImpl<PwrMgmtAndLedMode> for State {
    open spec fn obeys_from_spec() -> bool {
        true
    }

    open spec fn from_spec(r: PwrMgmtAndLedMode) -> State {
        State::PwrMgmtAndLedMode(r)
    }
}

impl core::convert::TryFrom<State> for PwrMgmtAndLedMode {
    type Error = InvalidAddress;

    fn try_from(s: State) -> (r: Result<PwrMgmtAndLedMode, InvalidAddress>) {
        match s {
            State::PwrMgmtAndLedMode(r) => Ok(r),
            _ => Err(InvalidAddress),
        }
    }
}

impl vstd::std_specs::convert::TryFromSpecImpl<State> for PwrMgmtAndLedMode {
    open spec fn obeys_try_from_spec() -> bool {
        true
    }

    open spec fn try_from_spec(s: State) -> Result<PwrMgmtAndLedMode, InvalidAddress> {
        match s {
            State::PwrMgmtAndLedMode(r) => Ok(r),
            _ => Err(InvalidAddress),
        }
    }
}

impl PwrMgmtAndLedMode {
    /// Provides read access to the individual fields of the register.
    pub fn read(&self) -> (r: R<PwrMgmtAndLedMode>)
        ensures
            r.0 == *self,
    {
        R(*self)
    }

    /// Provides write access to the individual fields of the register.
    pub fn write(self) -> (w: W<PwrMgmtAndLedMode>)
        ensures
            w.0 == self,
    {
        W(self)
    }
}

impl R<PwrMgmtAndLedMode> {
    /// Read access to the `cpu_iface_power_down` field.
    pub fn cpu_iface_power_down(&self) -> (f: BitR)
        ensures
            f.bit == (self.0@ & 0x80 != 0),
    {
        BitR { bit: self.0.bits & 0x80 != 0 }
    }

    /// Read access to the `switch_power_down` field.
    pub fn switch_power_down(&self) -> (f: BitR)
        ensures
            f.bit == (self.0@ & 0x40 != 0),
    {
        BitR { bit: self.0.bits & 0x40 != 0 }
    }

    /// Read access to the `led_mode_selection` field.
    pub fn led_mode_selection(&self) -> (f: BitsR<u8>)
        ensures
            f.bits == load8(self.0@, 0x30, 4),
    {
        BitsR { bits: (self.0.bits & 0x30) >> 4u8 }
    }

    /// Read access to the `led_output_mode` field.
    pub fn led_output_mode(&self) -> (f: BitR)
        ensures
            f.bit == (self.0@ & 0x08 != 0),
    {
        BitR { bit: self.0.bits & 0x08 != 0 }
    }

    /// Read access to the `pll_off` field.
    pub fn pll_off(&self) -> (f: BitR)
        ensures
            f.bit == (self.0@ & 0x04 != 0),
    {
        BitR { bit: self.0.bits & 0x04 != 0 }
    }

    /// Read access to the `pwr_mgmt_mode` field.
    pub fn pwr_mgmt_mode(&self) -> (f: BitsR<u8>)
        ensures
            f.bits == load8(self.0@, 0x03, 0),
    {
        BitsR { bits: (self.0.bits & 0x03) >> 0u8 }
    }
}

impl W<PwrMgmtAndLedMode> {
    /// Write access to the `cpu_iface_power_down` field.
    pub fn cpu_iface_power_down(self) -> (f: BitW<PwrMgmtAndLedMode>)
        ensures
            f.w == self,
            f.mask == 0x80,
    {
        BitW { w: self, mask: 0x80 }
    }

    /// Write access to the `switch_power_down` field.
    pub fn switch_power_down(self) -> (f: BitW<PwrMgmtAndLedMode>)
        ensures
            f.w == self,
            f.mask == 0x40,
    {
        BitW { w: self, mask: 0x40 }
    }

    /// Write access to the `led_mode_selection` field.
    pub fn led_mode_selection(self) -> (f: BitsW<PwrMgmtAndLedMode>)
        ensures
            f.w == self,
            f.mask == 0x30,
            f.shift == 4,
    {
        BitsW { w: self, mask: 0x30, shift: 4 }
    }

    /// Write access to the `led_output_mode` field.
    pub fn led_output_mode(self) -> (f: BitW<PwrMgmtAndLedMode>)
        ensures
            f.w == self,
            f.mask == 0x08,
    {
        BitW { w: self, mask: 0x08 }
    }

    /// Write access to the `pll_off` field.
    pub fn pll_off(self) -> (f: BitW<PwrMgmtAndLedMode>)
        ensures
            f.w == self,
            f.mask == 0x04,
    {
        BitW { w: self, mask: 0x04 }
    }

    /// Write access to the `pwr_mgmt_mode` field.
    pub fn pwr_mgmt_mode(self) -> (f: BitsW<PwrMgmtAndLedMode>)
        ensures
            f.w == self,
            f.mask == 0x03,
            f.shift == 0,
    {
        BitsW { w: self, mask: 0x03, shift: 0 }
    }
}

/// The `SleepMode` register, at address `0xc4`.
#[derive(Clone, Copy, Debug, PartialEq, Eq, Structural, Hash)]
pub struct SleepMode {
    bits: u8,
}

impl View for SleepMode {
    type V = u8;

    closed spec fn view(&self) -> u8 {
        self.bits
    }
}

impl Register for SleepMode {
    open spec fn spec_address() -> Address {
        Address::SleepMode
    }

    closed spec fn spec_from_bits(bits: u8) -> SleepMode {
        SleepMode { bits }
    }

    proof fn lemma_from_bits(bits: u8) {
    }

    fn address() -> (a: Address) {
        Address::SleepMode
    }

    fn from_bits(bits: u8) -> (r: SleepMode) {
        SleepMode { bits }
    }

    fn to_bits(&self) -> (b: u8) {
        self.bits
    }
}

impl Default for SleepMode {
    fn default() -> (r: SleepMode)
        ensures
            r@ == default_bits(Address::SleepMode),
    {
        SleepMode { bits: 0x50 }
    }
}

impl From<u8> for SleepMode {
    fn from(bits: u8) -> (r: SleepMode) {
        SleepMode { bits }
    }
}

impl vstd::std_specs::convert::FromSpecImpl<u8> for SleepMode {
    open spec fn obeys_from_spec() -> bool {
        true
    }

    open spec fn from_spec(bits: u8) -> SleepMode {
        <SleepMode as Register>::spec_from_bits(bits)
    }
}

impl From<SleepMode> for u8 {
    fn from(r: SleepMode) -> (bits: u8) {
        r.bits
    }
}

impl vstd::std_specs::convert::FromSpecImpl<SleepMode> for u8 {
    open spec fn obeys_from_spec() -> bool {
        true
    }

    open spec fn from_spec(r: SleepMode) -> u8 {
        r@
    }
}

impl From<SleepMode> for State {
    fn from(r: SleepMode) -> (s: State) {
        State::SleepMode(r)
    }
}

impl vstd::std_specs::convert::FromSpecImpl<SleepMode> for State {
    open spec fn obeys_from_spec() -> bool {
        true
    }

    open spec fn from_spec(r: SleepMode) -> State {
        State::SleepMode(r)
    }
}

impl core::convert::TryFrom<State> for SleepMode {
    type Error = InvalidAddress;

    fn try_from(s: State) -> (r: Result<SleepMode, InvalidAddress>) {
        match s {
            State::SleepMode(r) => Ok(r),
            _ => Err(InvalidAddress),
        }
    }
}

impl vstd::std_specs::convert::TryFromSpecImpl<State> for SleepMode {
    open spec fn obeys_try_from_spec() -> bool {
        true
    }

    open spec fn try_from_spec(s: State) -> Result<SleepMode, InvalidAddress> {
        match s {
            State::SleepMode(r) => Ok(r),
            _ => Err(InvalidAddress),
        }
    }
}

impl SleepMode {
    /// Provides read access to the individual fields of the register.
    pub fn read(&self) -> (r: R<SleepMode>)
        ensures
            r.0 == *self,
    {
        R(*self)
    }

    /// Provides write access to the individual fields of the register.
    pub fn write(self) -> (w: W<SleepMode>)
        ensures
            w.0 == self,
    {
        W(self)
    }
}

impl R<SleepMode> {
    /// Read access to the `data` field.
    pub fn data(&self) -> (f: BitsR<u8>)
        ensures
            f.bits == load8(self.0@, 0xff, 0),
    {
        BitsR { bits: (self.0.bits & 0xff) >> 0u8 }
    }
}

impl W<SleepMode> {
    /// Write access to the `data` field.
    pub fn data(self) -> (f: BitsW<SleepMode>)
        ensures
            f.w == self,
            f.mask == 0xff,
            f.shift == 0,
    {
        BitsW { w: self, mask: 0xff, shift: 0 }
    }
}

/// The `FwdInvalidVidFrameAndHostMode` register, at address `0xc6`.
#[derive(Clone, Copy, Debug, PartialEq, Eq, Structural, Hash)]
pub struct FwdInvalidVidFrameAndHostMode {
    bits: u8,
}

impl View for FwdInvalidVidFrameAndHostMode {
    type V = u8;

    closed spec fn view(&self) -> u8 {
        self.bits
    }
}

impl Register for FwdInvalidVidFrameAndHostMode {
    open spec fn spec_address() -> Address {
        Address::FwdInvalidVidFrameAndHostMode
    }

    closed spec fn spec_from_bits(bits: u8) -> FwdInvalidVidFrameAndHostMode {
        FwdInvalidVidFrameAndHostMode { bits }
    }

    proof fn lemma_from_bits(bits: u8) {
    }

    fn address() -> (a: Address) {
        Address::FwdInvalidVidFrameAndHostMode
    }

    fn from_bits(bits: u8) -> (r: FwdInvalidVidFrameAndHostMode) {
        FwdInvalidVidFrameAndHostMode { bits }
    }

    fn to_bits(&self) -> (b: u8) {
        self.bits
    }
}

impl Default for FwdInvalidVidFrameAndHostMode {
    fn default() -> (r: FwdInvalidVidFrameAndHostMode)
        ensures
            r@ == default_bits(Address::FwdInvalidVidFrameAndHostMode),
    {
        FwdInvalidVidFrameAndHostMode { bits: 0x00 }
    }
}

impl From<u8> for FwdInvalidVidFrameAndHostMode {
    fn from(bits: u8) -> (r: FwdInvalidVidFrameAndHostMode) {
        FwdInvalidVidFrameAndHostMode { bits }
    }
}

impl vstd::std_specs::convert::FromSpecImpl<u8> for FwdInvalidVidFrameAndHostMode {
    open spec fn obeys_from_spec() -> bool {
        true
    }

    open spec fn from_spec(bits: u8) -> FwdInvalidVidFrameAndHostMode {
        <FwdInvalidVidFrameAndHostMode as Register>::spec_from_bits(bits)
    }
}

impl From<FwdInvalidVidFrameAndHostMode> for u8 {
    fn from(r: FwdInvalidVidFrameAndHostMode) -> (bits: u8) {
        r.bits
    }
}

impl vstd::std_specs::convert::FromSpecImpl<FwdInvalidVidFrameAndHostMode> for u8 {
    open spec fn obeys_from_spec() -> bool {
        true
    }

    open spec fn from_spec(r: FwdInvalidVidFrameAndHostMode) -> u8 {
        r@
    }
}

impl From<FwdInvalidVidFrameAndHostMode> for State {
    fn from(r: FwdInvalidVidFrameAndHostMode) -> (s: State) {
        State::FwdInvalidVidFrameAndHostMode(r)
    }
}

impl vstd::std_specs::convert::FromSpecImpl<FwdInvalidVidFrameAndHostMode> for State {
    open spec fn obeys_from_spec() -> bool {
        true
    }

    open spec fn from_spec(r: FwdInvalidVidFrameAndHostMode) -> State {
        State::FwdInvalidVidFrameAndHostMode(r)
    }
}

impl core::convert::TryFrom<State> for FwdInvalidVidFrameAndHostMode {
    type Error = InvalidAddress;

    fn try_from(s: State) -> (r: Result<FwdInvalidVidFrameAndHostMode, InvalidAddress>) {
        match s {
            State::FwdInvalidVidFrameAndHostMode(r) => Ok(r),
            _ => Err(InvalidAddress),
        }
    }
}

impl vstd::std_specs::convert::TryFromSpecImpl<State> for FwdInvalidVidFrameAndHostMode {
    open spec fn obeys_try_from_spec() -> bool {
        true
    }

    open spec fn try_from_spec(s: State) -> Result<FwdInvalidVidFrameAndHostMode, InvalidAddress> {
        match s {
            State::FwdInvalidVidFrameAndHostMode(r) => Ok(r),
            _ => Err(InvalidAddress),
        }
    }
}

impl FwdInvalidVidFrameAndHostMode {
    /// Provides read access to the individual fields of the register.
    pub fn read(&self) -> (r: R<FwdInvalidVidFrameAndHostMode>)
        ensures
            r.0 == *self,
    {
        R(*self)
    }

    /// Provides write access to the individual fields of the register.
    pub fn write(self) -> (w: W<FwdInvalidVidFrameAndHostMode>)
        ensures
            w.0 == self,
    {
        W(self)
    }
}

impl R<FwdInvalidVidFrameAndHostMode> {
    /// Read access to the `fwd_invalid_vid_frame` field.
    pub fn fwd_invalid_vid_frame(&self) -> (f: BitsR<u8>)
        ensures
            f.bits == load8(self.0@, 0x70, 4),
    {
        BitsR { bits: (self.0.bits & 0x70) >> 4u8 }
    }

    /// Read access to the `p3_rmii_clock_selection` field.
    pub fn p3_rmii_clock_selection(&self) -> (f: BitR)
        ensures
            f.bit == (self.0@ & 0x08 != 0),
    {
        BitR { bit: self.0.bits & 0x08 != 0 }
    }

    /// Read access to the `p1_rmii_clock_selection` field.
    pub fn p1_rmii_clock_selection(&self) -> (f: BitR)
        ensures
            f.bit == (self.0@ & 0x04 != 0),
    {
        BitR { bit: self.0.bits & 0x04 != 0 }
    }

    /// Read access to the `host_iface_mode` field.
    pub fn host_iface_mode(&self) -> (f: BitsR<u8>)
        ensures
            f.bits == load8(self.0@, 0x03, 0),
    {
        BitsR { bits: (self.0.bits & 0x03) >> 0u8 }
    }
}

impl W<FwdInvalidVidFrameAndHostMode> {
    /// Write access to the `fwd_invalid_vid_frame` field.
    pub fn fwd_invalid_vid_frame(self) -> (f: BitsW<FwdInvalidVidFrameAndHostMode>)
        ensures
            f.w == self,
            f.mask == 0x70,
            f.shift == 4,
    {
        BitsW { w: self, mask: 0x70, shift: 4 }
    }

    /// Write access to the `p3_rmii_clock_selection` field.
    pub fn p3_rmii_clock_selection(self) -> (f: BitW<FwdInvalidVidFrameAndHostMode>)
        ensures
            f.w == self,
            f.mask == 0x08,
    {
        BitW { w: self, mask: 0x08 }
    }

    /// Write access to the `p1_rmii_clock_selection` field.
    pub fn p1_rmii_clock_selection(self) -> (f: BitW<FwdInvalidVidFrameAndHostMode>)
        ensures
            f.w == self,
            f.mask == 0x04,
    {
        BitW { w: self, mask: 0x04 }
    }

    /// Write access to the `host_iface_mode` field.
    pub fn host_iface_mode(self) -> (f: BitsW<FwdInvalidVidFrameAndHostMode>)
        ensures
            f.w == self,
            f.mask == 0x03,
            f.shift == 0,
    {
        BitsW { w: self, mask: 0x03, shift: 0 }
    }
}

impl<T> Smi<T> {
    /// Access the `ChipId0` register.
    pub fn chip_id0(&mut self) -> (r: Reg<'_, T, ChipId0>)
        ensures
            *r.smi == *old(self),
            *final(self) == *final(r.smi),
    {
        self.reg::<ChipId0>()
    }

    /// Access the `ChipId1` register.
    pub fn chip_id1(&mut self) -> (r: Reg<'_, T, ChipId1>)
        ensures
            *r.smi == *old(self),
            *final(self) == *final(r.smi),
    {
        self.reg::<ChipId1>()
    }

    /// Access the `Gc0` register.
    pub fn gc0(&mut self) -> (r: Reg<'_, T, Gc0>)
        ensures
            *r.smi == *old(self),
            *final(self) == *final(r.smi),
    {
        self.reg::<Gc0>()
    }

    /// Access the `Gc1` register.
    pub fn gc1(&mut self) -> (r: Reg<'_, T, Gc1>)
        ensures
            *r.smi == *old(self),
            *final(self) == *final(r.smi),
    {
        self.reg::<Gc1>()
    }

    /// Access the `Gc2` register.
    pub fn gc2(&mut self) -> (r: Reg<'_, T, Gc2>)
        ensures
            *r.smi == *old(self),
            *final(self) == *final(r.smi),
    {
        self.reg::<Gc2>()
    }

    /// Access the `Gc3` register.
    pub fn gc3(&mut self) -> (r: Reg<'_, T, Gc3>)
        ensures
            *r.smi == *old(self),
            *final(self) == *final(r.smi),
    {
        self.reg::<Gc3>()
    }

    /// Access the `Gc4` register.
    pub fn gc4(&mut self) -> (r: Reg<'_, T, Gc4>)
        ensures
            *r.smi == *old(self),
            *final(self) == *final(r.smi),
    {
        self.reg::<Gc4>()
    }

    /// Access the `Gc5` register.
    pub fn gc5(&mut self) -> (r: Reg<'_, T, Gc5>)
        ensures
            *r.smi == *old(self),
            *final(self) == *final(r.smi),
    {
        self.reg::<Gc5>()
    }

    /// Access the `Gc9` register.
    pub fn gc9(&mut self) -> (r: Reg<'_, T, Gc9>)
        ensures
            *r.smi == *old(self),
            *final(self) == *final(r.smi),
    {
        self.reg::<Gc9>()
    }

    /// Access the `Gc10` register.
    pub fn gc10(&mut self) -> (r: Reg<'_, T, Gc10>)
        ensures
            *r.smi == *old(self),
            *final(self) == *final(r.smi),
    {
        self.reg::<Gc10>()
    }

    /// Access the `Gc11` register.
    pub fn gc11(&mut self) -> (r: Reg<'_, T, Gc11>)
        ensures
            *r.smi == *old(self),
            *final(self) == *final(r.smi),
    {
        self.reg::<Gc11>()
    }

    /// Access the `Gc12` register.
    pub fn gc12(&mut self) -> (r: Reg<'_, T, Gc12>)
        ensures
            *r.smi == *old(self),
            *final(self) == *final(r.smi),
    {
        self.reg::<Gc12>()
    }

    /// Access the `Gc13` register.
    pub fn gc13(&mut self) -> (r: Reg<'_, T, Gc13>)
        ensures
            *r.smi == *old(self),
            *final(self) == *final(r.smi),
    {
        self.reg::<Gc13>()
    }

    /// Access the `Port1Ctrl0` register.
    pub fn port1_ctrl0(&mut self) -> (r: Reg<'_, T, Port1Ctrl0>)
        ensures
            *r.smi == *old(self),
            *final(self) == *final(r.smi),
    {
        self.reg::<Port1Ctrl0>()
    }

    /// Access the `Port1Ctrl1` register.
    pub fn port1_ctrl1(&mut self) -> (r: Reg<'_, T, Port1Ctrl1>)
        ensures
            *r.smi == *old(self),
            *final(self) == *final(r.smi),
    {
        self.reg::<Port1Ctrl1>()
    }

    /// Access the `Port1Ctrl2` register.
    pub fn port1_ctrl2(&mut self) -> (r: Reg<'_, T, Port1Ctrl2>)
        ensures
            *r.smi == *old(self),
            *final(self) == *final(r.smi),
    {
        self.reg::<Port1Ctrl2>()
    }

    /// Access the `Port1Ctrl3` register.
    pub fn port1_ctrl3(&mut self) -> (r: Reg<'_, T, Port1Ctrl3>)
        ensures
            *r.smi == *old(self),
            *final(self) == *final(r.smi),
    {
        self.reg::<Port1Ctrl3>()
    }

    /// Access the `Port1Ctrl4` register.
    pub fn port1_ctrl4(&mut self) -> (r: Reg<'_, T, Port1Ctrl4>)
        ensures
            *r.smi == *old(self),
            *final(self) == *final(r.smi),
    {
        self.reg::<Port1Ctrl4>()
    }

    /// Access the `Port1Ctrl5` register.
    pub fn port1_ctrl5(&mut self) -> (r: Reg<'_, T, Port1Ctrl5>)
        ensures
            *r.smi == *old(self),
            *final(self) == *final(r.smi),
    {
        self.reg::<Port1Ctrl5>()
    }

    /// Access the `Port1Q0IngressRateLimit` register.
    pub fn port1_q0_ingress_rate_limit(&mut self) -> (r: Reg<'_, T, Port1Q0IngressRateLimit>)
        ensures
            *r.smi == *old(self),
            *final(self) == *final(r.smi),
    {
        self.reg::<Port1Q0IngressRateLimit>()
    }

    /// Access the `Port1Q1IngressRateLimit` register.
    pub fn port1_q1_ingress_rate_limit(&mut self) -> (r: Reg<'_, T, Port1Q1IngressRateLimit>)
        ensures
            *r.smi == *old(self),
            *final(self) == *final(r.smi),
    {
        self.reg::<Port1Q1IngressRateLimit>()
    }

    /// Access the `Port1Q2IngressRateLimit` register.
    pub fn port1_q2_ingress_rate_limit(&mut self) -> (r: Reg<'_, T, Port1Q2IngressRateLimit>)
        ensures
            *r.smi == *old(self),
            *final(self) == *final(r.smi),
    {
        self.reg::<Port1Q2IngressRateLimit>()
    }

    /// Access the `Port1Q3IngressRateLimit` register.
    pub fn port1_q3_ingress_rate_limit(&mut self) -> (r: Reg<'_, T, Port1Q3IngressRateLimit>)
        ensures
            *r.smi == *old(self),
            *final(self) == *final(r.smi),
    {
        self.reg::<Port1Q3IngressRateLimit>()
    }

    /// Access the `Port1PhySpecial` register.
    pub fn port1_phy_special(&mut self) -> (r: Reg<'_, T, Port1PhySpecial>)
        ensures
            *r.smi == *old(self),
            *final(self) == *final(r.smi),
    {
        self.reg::<Port1PhySpecial>()
    }

    /// Access the `Port1LinkMdResult` register.
    pub fn port1_link_md_result(&mut self) -> (r: Reg<'_, T, Port1LinkMdResult>)
        ensures
            *r.smi == *old(self),
            *final(self) == *final(r.smi),
    {
        self.reg::<Port1LinkMdResult>()
    }

    /// Access the `Port1Ctrl12` register.
    pub fn port1_ctrl12(&mut self) -> (r: Reg<'_, T, Port1Ctrl12>)
        ensures
            *r.smi == *old(self),
            *final(self) == *final(r.smi),
    {
        self.reg::<Port1Ctrl12>()
    }

    /// Access the `Port1Ctrl13` register.
    pub fn port1_ctrl13(&mut self) -> (r: Reg<'_, T, Port1Ctrl13>)
        ensures
            *r.smi == *old(self),
            *final(self) == *final(r.smi),
    {
        self.reg::<Port1Ctrl13>()
    }

    /// Access the `Port1Status0` register.
    pub fn port1_status0(&mut self) -> (r: Reg<'_, T, Port1Status0>)
        ensures
            *r.smi == *old(self),
            *final(self) == *final(r.smi),
    {
        self.reg::<Port1Status0>()
    }

    /// Access the `Port1Status1` register.
    pub fn port1_status1(&mut self) -> (r: Reg<'_, T, Port1Status1>)
        ensures
            *r.smi == *old(self),
            *final(self) == *final(r.smi),
    {
        self.reg::<Port1Status1>()
    }

    /// Access the `Port2Ctrl0` register.
    pub fn port2_ctrl0(&mut self) -> (r: Reg<'_, T, Port2Ctrl0>)
        ensures
            *r.smi == *old(self),
            *final(self) == *final(r.smi),
    {
        self.reg::<Port2Ctrl0>()
    }

    /// Access the `Port2Ctrl1` register.
    pub fn port2_ctrl1(&mut self) -> (r: Reg<'_, T, Port2Ctrl1>)
        ensures
            *r.smi == *old(self),
            *final(self) == *final(r.smi),
    {
        self.reg::<Port2Ctrl1>()
    }

    /// Access the `Port2Ctrl2` register.
    pub fn port2_ctrl2(&mut self) -> (r: Reg<'_, T, Port2Ctrl2>)
        ensures
            *r.smi == *old(self),
            *final(self) == *final(r.smi),
    {
        self.reg::<Port2Ctrl2>()
    }

    /// Access the `Port2Ctrl3` register.
    pub fn port2_ctrl3(&mut self) -> (r: Reg<'_, T, Port2Ctrl3>)
        ensures
            *r.smi == *old(self),
            *final(self) == *final(r.smi),
    {
        self.reg::<Port2Ctrl3>()
    }

    /// Access the `Port2Ctrl4` register.
    pub fn port2_ctrl4(&mut self) -> (r: Reg<'_, T, Port2Ctrl4>)
        ensures
            *r.smi == *old(self),
            *final(self) == *final(r.smi),
    {
        self.reg::<Port2Ctrl4>()
    }

    /// Access the `Port2Ctrl5` register.
    pub fn port2_ctrl5(&mut self) -> (r: Reg<'_, T, Port2Ctrl5>)
        ensures
            *r.smi == *old(self),
            *final(self) == *final(r.smi),
    {
        self.reg::<Port2Ctrl5>()
    }

    /// Access the `Port2Q0IngressRateLimit` register.
    pub fn port2_q0_ingress_rate_limit(&mut self) -> (r: Reg<'_, T, Port2Q0IngressRateLimit>)
        ensures
            *r.smi == *old(self),
            *final(self) == *final(r.smi),
    {
        self.reg::<Port2Q0IngressRateLimit>()
    }

    /// Access the `Port2Q1IngressRateLimit` register.
    pub fn port2_q1_ingress_rate_limit(&mut self) -> (r: Reg<'_, T, Port2Q1IngressRateLimit>)
        ensures
            *r.smi == *old(self),
            *final(self) == *final(r.smi),
    {
        self.reg::<Port2Q1IngressRateLimit>()
    }

    /// Access the `Port2Q2IngressRateLimit` register.
    pub fn port2_q2_ingress_rate_limit(&mut self) -> (r: Reg<'_, T, Port2Q2IngressRateLimit>)
        ensures
            *r.smi == *old(self),
            *final(self) == *final(r.smi),
    {
        self.reg::<Port2Q2IngressRateLimit>()
    }

    /// Access the `Port2Q3IngressRateLimit` register.
    pub fn port2_q3_ingress_rate_limit(&mut self) -> (r: Reg<'_, T, Port2Q3IngressRateLimit>)
        ensures
            *r.smi == *old(self),
            *final(self) == *final(r.smi),
    {
        self.reg::<Port2Q3IngressRateLimit>()
    }

    /// Access the `Port2PhySpecial` register.
    pub fn port2_phy_special(&mut self) -> (r: Reg<'_, T, Port2PhySpecial>)
        ensures
            *r.smi == *old(self),
            *final(self) == *final(r.smi),
    {
        self.reg::<Port2PhySpecial>()
    }

    /// Access the `Port2LinkMdResult` register.
    pub fn port2_link_md_result(&mut self) -> (r: Reg<'_, T, Port2LinkMdResult>)
        ensures
            *r.smi == *old(self),
            *final(self) == *final(r.smi),
    {
        self.reg::<Port2LinkMdResult>()
    }

    /// Access the `Port2Ctrl12` register.
    pub fn port2_ctrl12(&mut self) -> (r: Reg<'_, T, Port2Ctrl12>)
        ensures
            *r.smi == *old(self),
            *final(self) == *final(r.smi),
    {
        self.reg::<Port2Ctrl12>()
    }

    /// Access the `Port2Ctrl13` register.
    pub fn port2_ctrl13(&mut self) -> (r: Reg<'_, T, Port2Ctrl13>)
        ensures
            *r.smi == *old(self),
            *final(self) == *final(r.smi),
    {
        self.reg::<Port2Ctrl13>()
    }

    /// Access the `Port2Status0` register.
    pub fn port2_status0(&mut self) -> (r: Reg<'_, T, Port2Status0>)
        ensures
            *r.smi == *old(self),
            *final(self) == *final(r.smi),
    {
        self.reg::<Port2Status0>()
    }

    /// Access the `Port2Status1` register.
    pub fn port2_status1(&mut self) -> (r: Reg<'_, T, Port2Status1>)
        ensures
            *r.smi == *old(self),
            *final(self) == *final(r.smi),
    {
        self.reg::<Port2Status1>()
    }

    /// Access the `Port3Ctrl0` register.
    pub fn port3_ctrl0(&mut self) -> (r: Reg<'_, T, Port3Ctrl0>)
        ensures
            *r.smi == *old(self),
            *final(self) == *final(r.smi),
    {
        self.reg::<Port3Ctrl0>()
    }

    /// Access the `Port3Ctrl1` register.
    pub fn port3_ctrl1(&mut self) -> (r: Reg<'_, T, Port3Ctrl1>)
        ensures
            *r.smi == *old(self),
            *final(self) == *final(r.smi),
    {
        self.reg::<Port3Ctrl1>()
    }

    /// Access the `Port3Ctrl2` register.
    pub fn port3_ctrl2(&mut self) -> (r: Reg<'_, T, Port3Ctrl2>)
        ensures
            *r.smi == *old(self),
            *final(self) == *final(r.smi),
    {
        self.reg::<Port3Ctrl2>()
    }

    /// Access the `Port3Ctrl3` register.
    pub fn port3_ctrl3(&mut self) -> (r: Reg<'_, T, Port3Ctrl3>)
        ensures
            *r.smi == *old(self),
            *final(self) == *final(r.smi),
    {
        self.reg::<Port3Ctrl3>()
    }

    /// Access the `Port3Ctrl4` register.
    pub fn port3_ctrl4(&mut self) -> (r: Reg<'_, T, Port3Ctrl4>)
        ensures
            *r.smi == *old(self),
            *final(self) == *final(r.smi),
    {
        self.reg::<Port3Ctrl4>()
    }

    /// Access the `Port3Ctrl5` register.
    pub fn port3_ctrl5(&mut self) -> (r: Reg<'_, T, Port3Ctrl5>)
        ensures
            *r.smi == *old(self),
            *final(self) == *final(r.smi),
    {
        self.reg::<Port3Ctrl5>()
    }

    /// Access the `Port3Q0IngressRateLimit` register.
    pub fn port3_q0_ingress_rate_limit(&mut self) -> (r: Reg<'_, T, Port3Q0IngressRateLimit>)
        ensures
            *r.smi == *old(self),
            *final(self) == *final(r.smi),
    {
        self.reg::<Port3Q0IngressRateLimit>()
    }

    /// Access the `Port3Q1IngressRateLimit` register.
    pub fn port3_q1_ingress_rate_limit(&mut self) -> (r: Reg<'_, T, Port3Q1IngressRateLimit>)
        ensures
            *r.smi == *old(self),
            *final(self) == *final(r.smi),
    {
        self.reg::<Port3Q1IngressRateLimit>()
    }

    /// Access the `Port3Q2IngressRateLimit` register.
    pub fn port3_q2_ingress_rate_limit(&mut self) -> (r: Reg<'_, T, Port3Q2IngressRateLimit>)
        ensures
            *r.smi == *old(self),
            *final(self) == *final(r.smi),
    {
        self.reg::<Port3Q2IngressRateLimit>()
    }

    /// Access the `Port3Q3IngressRateLimit` register.
    pub fn port3_q3_ingress_rate_limit(&mut self) -> (r: Reg<'_, T, Port3Q3IngressRateLimit>)
        ensures
            *r.smi == *old(self),
            *final(self) == *final(r.smi),
    {
        self.reg::<Port3Q3IngressRateLimit>()
    }

    /// Access the `Port3Status1` register.
    pub fn port3_status1(&mut self) -> (r: Reg<'_, T, Port3Status1>)
        ensures
            *r.smi == *old(self),
            *final(self) == *final(r.smi),
    {
        self.reg::<Port3Status1>()
    }

    /// Access the `Reset` register.
    pub fn reset(&mut self) -> (r: Reg<'_, T, Reset>)
        ensures
            *r.smi == *old(self),
            *final(self) == *final(r.smi),
    {
        self.reg::<Reset>()
    }

    /// Access the `TosPriorityCtrl0` register.
    pub fn tos_priority_ctrl_0(&mut self) -> (r: Reg<'_, T, TosPriorityCtrl0>)
        ensures
            *r.smi == *old(self),
            *final(self) == *final(r.smi),
    {
        self.reg::<TosPriorityCtrl0>()
    }

    /// Access the `TosPriorityCtrl1` register.
    pub fn tos_priority_ctrl_1(&mut self) -> (r: Reg<'_, T, TosPriorityCtrl1>)
        ensures
            *r.smi == *old(self),
            *final(self) == *final(r.smi),
    {
        self.reg::<TosPriorityCtrl1>()
    }

    /// Access the `TosPriorityCtrl2` register.
    pub fn tos_priority_ctrl_2(&mut self) -> (r: Reg<'_, T, TosPriorityCtrl2>)
        ensures
            *r.smi == *old(self),
            *final(self) == *final(r.smi),
    {
        self.reg::<TosPriorityCtrl2>()
    }

    /// Access the `TosPriorityCtrl3` register.
    pub fn tos_priority_ctrl_3(&mut self) -> (r: Reg<'_, T, TosPriorityCtrl3>)
        ensures
            *r.smi == *old(self),
            *final(self) == *final(r.smi),
    {
        self.reg::<TosPriorityCtrl3>()
    }

    /// Access the `TosPriorityCtrl4` register.
    pub fn tos_priority_ctrl_4(&mut self) -> (r: Reg<'_, T, TosPriorityCtrl4>)
        ensures
            *r.smi == *old(self),
            *final(self) == *final(r.smi),
    {
        self.reg::<TosPriorityCtrl4>()
    }

    /// Access the `TosPriorityCtrl5` register.
    pub fn tos_priority_ctrl_5(&mut self) -> (r: Reg<'_, T, TosPriorityCtrl5>)
        ensures
            *r.smi == *old(self),
            *final(self) == *final(r.smi),
    {
        self.reg::<TosPriorityCtrl5>()
    }

    /// Access the `TosPriorityCtrl6` register.
    pub fn tos_priority_ctrl_6(&mut self) -> (r: Reg<'_, T, TosPriorityCtrl6>)
        ensures
            *r.smi == *old(self),
            *final(self) == *final(r.smi),
    {
        self.reg::<TosPriorityCtrl6>()
    }

    /// Access the `TosPriorityCtrl7` register.
    pub fn tos_priority_ctrl_7(&mut self) -> (r: Reg<'_, T, TosPriorityCtrl7>)
        ensures
            *r.smi == *old(self),
            *final(self) == *final(r.smi),
    {
        self.reg::<TosPriorityCtrl7>()
    }

    /// Access the `TosPriorityCtrl8` register.
    pub fn tos_priority_ctrl_8(&mut self) -> (r: Reg<'_, T, TosPriorityCtrl8>)
        ensures
            *r.smi == *old(self),
            *final(self) == *final(r.smi),
    {
        self.reg::<TosPriorityCtrl8>()
    }

    /// Access the `TosPriorityCtrl9` register.
    pub fn tos_priority_ctrl_9(&mut self) -> (r: Reg<'_, T, TosPriorityCtrl9>)
        ensures
            *r.smi == *old(self),
            *final(self) == *final(r.smi),
    {
        self.reg::<TosPriorityCtrl9>()
    }

    /// Access the `TosPriorityCtrl10` register.
    pub fn tos_priority_ctrl_10(&mut self) -> (r: Reg<'_, T, TosPriorityCtrl10>)
        ensures
            *r.smi == *old(self),
            *final(self) == *final(r.smi),
    {
        self.reg::<TosPriorityCtrl10>()
    }

    /// Access the `TosPriorityCtrl11` register.
    pub fn tos_priority_ctrl_11(&mut self) -> (r: Reg<'_, T, TosPriorityCtrl11>)
        ensures
            *r.smi == *old(self),
            *final(self) == *final(r.smi),
    {
        self.reg::<TosPriorityCtrl11>()
    }

    /// Access the `TosPriorityCtrl12` register.
    pub fn tos_priority_ctrl_12(&mut self) -> (r: Reg<'_, T, TosPriorityCtrl12>)
        ensures
            *r.smi == *old(self),
            *final(self) == *final(r.smi),
    {
        self.reg::<TosPriorityCtrl12>()
    }

    /// Access the `TosPriorityCtrl13` register.
    pub fn tos_priority_ctrl_13(&mut self) -> (r: Reg<'_, T, TosPriorityCtrl13>)
        ensures
            *r.smi == *old(self),
            *final(self) == *final(r.smi),
    {
        self.reg::<TosPriorityCtrl13>()
    }

    /// Access the `TosPriorityCtrl14` register.
    pub fn tos_priority_ctrl_14(&mut self) -> (r: Reg<'_, T, TosPriorityCtrl14>)
        ensures
            *r.smi == *old(self),
            *final(self) == *final(r.smi),
    {
        self.reg::<TosPriorityCtrl14>()
    }

    /// Access the `TosPriorityCtrl15` register.
    pub fn tos_priority_ctrl_15(&mut self) -> (r: Reg<'_, T, TosPriorityCtrl15>)
        ensures
            *r.smi == *old(self),
            *final(self) == *final(r.smi),
    {
        self.reg::<TosPriorityCtrl15>()
    }

    /// Access the `MacAddr0` register.
    pub fn mac_addr_0(&mut self) -> (r: Reg<'_, T, MacAddr0>)
        ensures
            *r.smi == *old(self),
            *final(self) == *final(r.smi),
    {
        self.reg::<MacAddr0>()
    }

    /// Access the `MacAddr1` register.
    pub fn mac_addr_1(&mut self) -> (r: Reg<'_, T, MacAddr1>)
        ensures
            *r.smi == *old(self),
            *final(self) == *final(r.smi),
    {
        self.reg::<MacAddr1>()
    }

    /// Access the `MacAddr2` register.
    pub fn mac_addr_2(&mut self) -> (r: Reg<'_, T, MacAddr2>)
        ensures
            *r.smi == *old(self),
            *final(self) == *final(r.smi),
    {
        self.reg::<MacAddr2>()
    }

    /// Access the `MacAddr3` register.
    pub fn mac_addr_3(&mut self) -> (r: Reg<'_, T, MacAddr3>)
        ensures
            *r.smi == *old(self),
            *final(self) == *final(r.smi),
    {
        self.reg::<MacAddr3>()
    }

    /// Access the `MacAddr4` register.
    pub fn mac_addr_4(&mut self) -> (r: Reg<'_, T, MacAddr4>)
        ensures
            *r.smi == *old(self),
            *final(self) == *final(r.smi),
    {
        self.reg::<MacAddr4>()
    }

    /// Access the `MacAddr5` register.
    pub fn mac_addr_5(&mut self) -> (r: Reg<'_, T, MacAddr5>)
        ensures
            *r.smi == *old(self),
            *final(self) == *final(r.smi),
    {
        self.reg::<MacAddr5>()
    }

    /// Access the `UserDef1` register.
    pub fn user_def1(&mut self) -> (r: Reg<'_, T, UserDef1>)
        ensures
            *r.smi == *old(self),
            *final(self) == *final(r.smi),
    {
        self.reg::<UserDef1>()
    }

    /// Access the `UserDef2` register.
    pub fn user_def2(&mut self) -> (r: Reg<'_, T, UserDef2>)
        ensures
            *r.smi == *old(self),
            *final(self) == *final(r.smi),
    {
        self.reg::<UserDef2>()
    }

    /// Access the `UserDef3` register.
    pub fn user_def3(&mut self) -> (r: Reg<'_, T, UserDef3>)
        ensures
            *r.smi == *old(self),
            *final(self) == *final(r.smi),
    {
        self.reg::<UserDef3>()
    }

    /// Access the `IndirectAccessCtrl0` register.
    pub fn indirect_access_ctrl0(&mut self) -> (r: Reg<'_, T, IndirectAccessCtrl0>)
        ensures
            *r.smi == *old(self),
            *final(self) == *final(r.smi),
    {
        self.reg::<IndirectAccessCtrl0>()
    }

    /// Access the `IndirectAccessCtrl1` register.
    pub fn indirect_access_ctrl1(&mut self) -> (r: Reg<'_, T, IndirectAccessCtrl1>)
        ensures
            *r.smi == *old(self),
            *final(self) == *final(r.smi),
    {
        self.reg::<IndirectAccessCtrl1>()
    }

    /// Access the `IndirectData8` register.
    pub fn indirect_data8(&mut self) -> (r: Reg<'_, T, IndirectData8>)
        ensures
            *r.smi == *old(self),
            *final(self) == *final(r.smi),
    {
        self.reg::<IndirectData8>()
    }

    /// Access the `IndirectData7` register.
    pub fn indirect_data7(&mut self) -> (r: Reg<'_, T, IndirectData7>)
        ensures
            *r.smi == *old(self),
            *final(self) == *final(r.smi),
    {
        self.reg::<IndirectData7>()
    }

    /// Access the `IndirectData6` register.
    pub fn indirect_data6(&mut self) -> (r: Reg<'_, T, IndirectData6>)
        ensures
            *r.smi == *old(self),
            *final(self) == *final(r.smi),
    {
        self.reg::<IndirectData6>()
    }

    /// Access the `IndirectData5` register.
    pub fn indirect_data5(&mut self) -> (r: Reg<'_, T, IndirectData5>)
        ensures
            *r.smi == *old(self),
            *final(self) == *final(r.smi),
    {
        self.reg::<IndirectData5>()
    }

    /// Access the `IndirectData4` register.
    pub fn indirect_data4(&mut self) -> (r: Reg<'_, T, IndirectData4>)
        ensures
            *r.smi == *old(self),
            *final(self) == *final(r.smi),
    {
        self.reg::<IndirectData4>()
    }

    /// Access the `IndirectData3` register.
    pub fn indirect_data3(&mut self) -> (r: Reg<'_, T, IndirectData3>)
        ensures
            *r.smi == *old(self),
            *final(self) == *final(r.smi),
    {
        self.reg::<IndirectData3>()
    }

    /// Access the `IndirectData2` register.
    pub fn indirect_data2(&mut self) -> (r: Reg<'_, T, IndirectData2>)
        ensures
            *r.smi == *old(self),
            *final(self) == *final(r.smi),
    {
        self.reg::<IndirectData2>()
    }

    /// Access the `IndirectData1` register.
    pub fn indirect_data1(&mut self) -> (r: Reg<'_, T, IndirectData1>)
        ensures
            *r.smi == *old(self),
            *final(self) == *final(r.smi),
    {
        self.reg::<IndirectData1>()
    }

    /// Access the `IndirectData0` register.
    pub fn indirect_data0(&mut self) -> (r: Reg<'_, T, IndirectData0>)
        ensures
            *r.smi == *old(self),
            *final(self) == *final(r.smi),
    {
        self.reg::<IndirectData0>()
    }

    /// Access the `Station1MacAddr0` register.
    pub fn station1_mac_addr0(&mut self) -> (r: Reg<'_, T, Station1MacAddr0>)
        ensures
            *r.smi == *old(self),
            *final(self) == *final(r.smi),
    {
        self.reg::<Station1MacAddr0>()
    }

    /// Access the `Station1MacAddr1` register.
    pub fn station1_mac_addr1(&mut self) -> (r: Reg<'_, T, Station1MacAddr1>)
        ensures
            *r.smi == *old(self),
            *final(self) == *final(r.smi),
    {
        self.reg::<Station1MacAddr1>()
    }

    /// Access the `Station1MacAddr2` register.
    pub fn station1_mac_addr2(&mut self) -> (r: Reg<'_, T, Station1MacAddr2>)
        ensures
            *r.smi == *old(self),
            *final(self) == *final(r.smi),
    {
        self.reg::<Station1MacAddr2>()
    }

    /// Access the `Station1MacAddr3` register.
    pub fn station1_mac_addr3(&mut self) -> (r: Reg<'_, T, Station1MacAddr3>)
        ensures
            *r.smi == *old(self),
            *final(self) == *final(r.smi),
    {
        self.reg::<Station1MacAddr3>()
    }

    /// Access the `Station1MacAddr4` register.
    pub fn station1_mac_addr4(&mut self) -> (r: Reg<'_, T, Station1MacAddr4>)
        ensures
            *r.smi == *old(self),
            *final(self) == *final(r.smi),
    {
        self.reg::<Station1MacAddr4>()
    }

    /// Access the `Station1MacAddr5` register.
    pub fn station1_mac_addr5(&mut self) -> (r: Reg<'_, T, Station1MacAddr5>)
        ensures
            *r.smi == *old(self),
            *final(self) == *final(r.smi),
    {
        self.reg::<Station1MacAddr5>()
    }

    /// Access the `Station2MacAddr0` register.
    pub fn station2_mac_addr0(&mut self) -> (r: Reg<'_, T, Station2MacAddr0>)
        ensures
            *r.smi == *old(self),
            *final(self) == *final(r.smi),
    {
        self.reg::<Station2MacAddr0>()
    }

    /// Access the `Station2MacAddr1` register.
    pub fn station2_mac_addr1(&mut self) -> (r: Reg<'_, T, Station2MacAddr1>)
        ensures
            *r.smi == *old(self),
            *final(self) == *final(r.smi),
    {
        self.reg::<Station2MacAddr1>()
    }

    /// Access the `Station2MacAddr2` register.
    pub fn station2_mac_addr2(&mut self) -> (r: Reg<'_, T, Station2MacAddr2>)
        ensures
            *r.smi == *old(self),
            *final(self) == *final(r.smi),
    {
        self.reg::<Station2MacAddr2>()
    }

    /// Access the `Station2MacAddr3` register.
    pub fn station2_mac_addr3(&mut self) -> (r: Reg<'_, T, Station2MacAddr3>)
        ensures
            *r.smi == *old(self),
            *final(self) == *final(r.smi),
    {
        self.reg::<Station2MacAddr3>()
    }

    /// Access the `Station2MacAddr4` register.
    pub fn station2_mac_addr4(&mut self) -> (r: Reg<'_, T, Station2MacAddr4>)
        ensures
            *r.smi == *old(self),
            *final(self) == *final(r.smi),
    {
        self.reg::<Station2MacAddr4>()
    }

    /// Access the `Station2MacAddr5` register.
    pub fn station2_mac_addr5(&mut self) -> (r: Reg<'_, T, Station2MacAddr5>)
        ensures
            *r.smi == *old(self),
            *final(self) == *final(r.smi),
    {
        self.reg::<Station2MacAddr5>()
    }

    /// Access the `Mode` register.
    pub fn mode(&mut self) -> (r: Reg<'_, T, Mode>)
        ensures
            *r.smi == *old(self),
            *final(self) == *final(r.smi),
    {
        self.reg::<Mode>()
    }

    /// Access the `HighPriorityPacketBufferQ3` register.
    pub fn high_priority_packet_buffer_q3(&mut self) -> (r: Reg<'_, T, HighPriorityPacketBufferQ3>)
        ensures
            *r.smi == *old(self),
            *final(self) == *final(r.smi),
    {
        self.reg::<HighPriorityPacketBufferQ3>()
    }

    /// Access the `HighPriorityPacketBufferQ2` register.
    pub fn high_priority_packet_buffer_q2(&mut self) -> (r: Reg<'_, T, HighPriorityPacketBufferQ2>)
        ensures
            *r.smi == *old(self),
            *final(self) == *final(r.smi),
    {
        self.reg::<HighPriorityPacketBufferQ2>()
    }

    /// Access the `HighPriorityPacketBufferQ1` register.
    pub fn high_priority_packet_buffer_q1(&mut self) -> (r: Reg<'_, T, HighPriorityPacketBufferQ1>)
        ensures
            *r.smi == *old(self),
            *final(self) == *final(r.smi),
    {
        self.reg::<HighPriorityPacketBufferQ1>()
    }

    /// Access the `HighPriorityPacketBufferQ0` register.
    pub fn high_priority_packet_buffer_q0(&mut self) -> (r: Reg<'_, T, HighPriorityPacketBufferQ0>)
        ensures
            *r.smi == *old(self),
            *final(self) == *final(r.smi),
    {
        self.reg::<HighPriorityPacketBufferQ0>()
    }

    /// Access the `PmUsageFlowCtrlSelectMode1` register.
    pub fn pm_usage_flow_ctrl_select_mode_1(&mut self) -> (r: Reg<'_, T, PmUsageFlowCtrlSelectMode1>)
        ensures
            *r.smi == *old(self),
            *final(self) == *final(r.smi),
    {
        self.reg::<PmUsageFlowCtrlSelectMode1>()
    }

    /// Access the `PmUsageFlowCtrlSelectMode2` register.
    pub fn pm_usage_flow_ctrl_select_mode_2(&mut self) -> (r: Reg<'_, T, PmUsageFlowCtrlSelectMode2>)
        ensures
            *r.smi == *old(self),
            *final(self) == *final(r.smi),
    {
        self.reg::<PmUsageFlowCtrlSelectMode2>()
    }

    /// Access the `PmUsageFlowCtrlSelectMode3` register.
    pub fn pm_usage_flow_ctrl_select_mode_3(&mut self) -> (r: Reg<'_, T, PmUsageFlowCtrlSelectMode3>)
        ensures
            *r.smi == *old(self),
            *final(self) == *final(r.smi),
    {
        self.reg::<PmUsageFlowCtrlSelectMode3>()
    }

    /// Access the `PmUsageFlowCtrlSelectMode4` register.
    pub fn pm_usage_flow_ctrl_select_mode_4(&mut self) -> (r: Reg<'_, T, PmUsageFlowCtrlSelectMode4>)
        ensures
            *r.smi == *old(self),
            *final(self) == *final(r.smi),
    {
        self.reg::<PmUsageFlowCtrlSelectMode4>()
    }

    /// Access the `Port1TxqSplitForQ3` register.
    pub fn port1_txq_split_for_q3(&mut self) -> (r: Reg<'_, T, Port1TxqSplitForQ3>)
        ensures
            *r.smi == *old(self),
            *final(self) == *final(r.smi),
    {
        self.reg::<Port1TxqSplitForQ3>()
    }

    /// Access the `Port1TxqSplitForQ2` register.
    pub fn port1_txq_split_for_q2(&mut self) -> (r: Reg<'_, T, Port1TxqSplitForQ2>)
        ensures
            *r.smi == *old(self),
            *final(self) == *final(r.smi),
    {
        self.reg::<Port1TxqSplitForQ2>()
    }

    /// Access the `Port1TxqSplitForQ1` register.
    pub fn port1_txq_split_for_q1(&mut self) -> (r: Reg<'_, T, Port1TxqSplitForQ1>)
        ensures
            *r.smi == *old(self),
            *final(self) == *final(r.smi),
    {
        self.reg::<Port1TxqSplitForQ1>()
    }

    /// Access the `Port1TxqSplitForQ0` register.
    pub fn port1_txq_split_for_q0(&mut self) -> (r: Reg<'_, T, Port1TxqSplitForQ0>)
        ensures
            *r.smi == *old(self),
            *final(self) == *final(r.smi),
    {
        self.reg::<Port1TxqSplitForQ0>()
    }

    /// Access the `Port2TxqSplitForQ3` register.
    pub fn port2_txq_split_for_q3(&mut self) -> (r: Reg<'_, T, Port2TxqSplitForQ3>)
        ensures
            *r.smi == *old(self),
            *final(self) == *final(r.smi),
    {
        self.reg::<Port2TxqSplitForQ3>()
    }

    /// Access the `Port2TxqSplitForQ2` register.
    pub fn port2_txq_split_for_q2(&mut self) -> (r: Reg<'_, T, Port2TxqSplitForQ2>)
        ensures
            *r.smi == *old(self),
            *final(self) == *final(r.smi),
    {
        self.reg::<Port2TxqSplitForQ2>()
    }

    /// Access the `Port2TxqSplitForQ1` register.
    pub fn port2_txq_split_for_q1(&mut self) -> (r: Reg<'_, T, Port2TxqSplitForQ1>)
        ensures
            *r.smi == *old(self),
            *final(self) == *final(r.smi),
    {
        self.reg::<Port2TxqSplitForQ1>()
    }

    /// Access the `Port2TxqSplitForQ0` register.
    pub fn port2_txq_split_for_q0(&mut self) -> (r: Reg<'_, T, Port2TxqSplitForQ0>)
        ensures
            *r.smi == *old(self),
            *final(self) == *final(r.smi),
    {
        self.reg::<Port2TxqSplitForQ0>()
    }

    /// Access the `Port3TxqSplitForQ3` register.
    pub fn port3_txq_split_for_q3(&mut self) -> (r: Reg<'_, T, Port3TxqSplitForQ3>)
        ensures
            *r.smi == *old(self),
            *final(self) == *final(r.smi),
    {
        self.reg::<Port3TxqSplitForQ3>()
    }

    /// Access the `Port3TxqSplitForQ2` register.
    pub fn port3_txq_split_for_q2(&mut self) -> (r: Reg<'_, T, Port3TxqSplitForQ2>)
        ensures
            *r.smi == *old(self),
            *final(self) == *final(r.smi),
    {
        self.reg::<Port3TxqSplitForQ2>()
    }

    /// Access the `Port3TxqSplitForQ1` register.
    pub fn port3_txq_split_for_q1(&mut self) -> (r: Reg<'_, T, Port3TxqSplitForQ1>)
        ensures
            *r.smi == *old(self),
            *final(self) == *final(r.smi),
    {
        self.reg::<Port3TxqSplitForQ1>()
    }

    /// Access the `Port3TxqSplitForQ0` register.
    pub fn port3_txq_split_for_q0(&mut self) -> (r: Reg<'_, T, Port3TxqSplitForQ0>)
        ensures
            *r.smi == *old(self),
            *final(self) == *final(r.smi),
    {
        self.reg::<Port3TxqSplitForQ0>()
    }

    /// Access the `InterruptEnable` register.
    pub fn interrupt_enable(&mut self) -> (r: Reg<'_, T, InterruptEnable>)
        ensures
            *r.smi == *old(self),
            *final(self) == *final(r.smi),
    {
        self.reg::<InterruptEnable>()
    }

    /// Access the `LinkChangeInterrupt` register.
    pub fn link_change_interrupt(&mut self) -> (r: Reg<'_, T, LinkChangeInterrupt>)
        ensures
            *r.smi == *old(self),
            *final(self) == *final(r.smi),
    {
        self.reg::<LinkChangeInterrupt>()
    }

    /// Access the `ForcePauseOff` register.
    pub fn force_pause_off(&mut self) -> (r: Reg<'_, T, ForcePauseOff>)
        ensures
            *r.smi == *old(self),
            *final(self) == *final(r.smi),
    {
        self.reg::<ForcePauseOff>()
    }

    /// Access the `FiberSignalThreshold` register.
    pub fn fiber_signal_threshold(&mut self) -> (r: Reg<'_, T, FiberSignalThreshold>)
        ensures
            *r.smi == *old(self),
            *final(self) == *final(r.smi),
    {
        self.reg::<FiberSignalThreshold>()
    }

    /// Access the `InternalLdoCtrl` register.
    pub fn internal_ldo_ctrl(&mut self) -> (r: Reg<'_, T, InternalLdoCtrl>)
        ensures
            *r.smi == *old(self),
            *final(self) == *final(r.smi),
    {
        self.reg::<InternalLdoCtrl>()
    }

    /// Access the `InsertSrcPvid` register.
    pub fn insert_src_pvid(&mut self) -> (r: Reg<'_, T, InsertSrcPvid>)
        ensures
            *r.smi == *old(self),
            *final(self) == *final(r.smi),
    {
        self.reg::<InsertSrcPvid>()
    }

    /// Access the `PwrMgmtAndLedMode` register.
    pub fn pwr_mgmt_and_led_mode(&mut self) -> (r: Reg<'_, T, PwrMgmtAndLedMode>)
        ensures
            *r.smi == *old(self),
            *final(self) == *final(r.smi),
    {
        self.reg::<PwrMgmtAndLedMode>()
    }

    /// Access the `SleepMode` register.
    pub fn sleep_mode(&mut self) -> (r: Reg<'_, T, SleepMode>)
        ensures
            *r.smi == *old(self),
            *final(self) == *final(r.smi),
    {
        self.reg::<SleepMode>()
    }

    /// Access the `FwdInvalidVidFrameAndHostMode` register.
    pub fn fwd_invalid_vid_frame_and_host_mode(&mut self) -> (r: Reg<'_, T, FwdInvalidVidFrameAndHostMode>)
        ensures
            *r.smi == *old(self),
            *final(self) == *final(r.smi),
    {
        self.reg::<FwdInvalidVidFrameAndHostMode>()
    }
}

} // verus!

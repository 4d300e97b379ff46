//! MII Management (MIIM) Interface.
//!
//! The IEEE 802.3 MII Management Interface, also known as the Management Data Input/Output
//! (MDIO) Interface. Allows for upper-layer devices to monitor and control the states of the
//! switch.
//!
//! Each of the 8 16-bit registers is indexed via a 5-bit address, preceded by a 5-bit PHY
//! address. A field position is a bit number: position `p` is the bit of weight `2^p`, and a
//! field over positions `lo..=hi` reads as the word shifted right by `lo` and masked to its
//! width.
use vstd::prelude::*;

use crate::word::{load16, merge16};
use crate::InvalidAddress;

verus! {

/// Implemented for all 16-bit MIIM registers.
///
/// A register is a raw word whose fields are read and written through masks; its view is
/// that word.
pub trait Register: Sized + Copy + View<V = u16> {
    /// The address at which the register is located.
    spec fn spec_address() -> Address;

    /// The register holding the raw word `bits`.
    spec fn spec_from_bits(bits: u16) -> Self;

    /// A register built from a raw word is that word, and it is the only register that is.
    proof fn lemma_from_bits(bits: u16)
        ensures
            Self::spec_from_bits(bits)@ == bits,
            forall|r: Self| r@ == bits ==> r == Self::spec_from_bits(bits),
    ;

    /// The address at which the register is located.
    fn address() -> (a: Address)
        ensures
            a == Self::spec_address(),
    ;

    /// The register holding the raw word `bits`.
    fn from_bits(bits: u16) -> (r: Self)
        ensures
            r == Self::spec_from_bits(bits),
    ;

    /// The raw word of the register.
    fn to_bits(&self) -> (b: u16)
        ensures
            b == self@,
    ;
}

/// The register of type `Q` at its default value.
pub open spec fn default_reg<Q: Register>() -> Q {
    Q::spec_from_bits(default_bits(Q::spec_address()))
}

/// A type wrapper that allows to read the individual fields of a register.
pub struct R<T>(pub T);

/// A type wrapper that allows to write to the individual fields of a register.
pub struct W<T>(pub T);

/// Read access to a field of one bit.
pub struct BitR {
    pub bit: bool,
}

/// Read access to a field of several bits.
pub struct BitsR<T> {
    pub bits: T,
}

/// Write access to a field of one bit, selected by `mask`, of the register in `w`.
pub struct BitW<T> {
    pub w: W<T>,
    pub mask: u16,
}

/// Write access to a field of several bits, selected by `mask` and starting at bit `shift`, of
/// the register in `w`.
pub struct BitsW<T> {
    pub w: W<T>,
    pub mask: u16,
    pub shift: u16,
}

impl BitR {
    /// Value of the field as a raw bit.
    pub fn bit(&self) -> (b: bool)
        ensures
            b == self.bit,
    {
        self.bit
    }

    /// Returns `true` if the bit is set (1).
    pub fn bit_is_set(&self) -> (b: bool)
        ensures
            b == self.bit,
    {
        self.bit
    }

    /// Returns `true` if the bit is clear (0).
    pub fn bit_is_clear(&self) -> (b: bool)
        ensures
            b == !self.bit,
    {
        !self.bit
    }
}

impl<T: Copy> BitsR<T> {
    /// Value of the field as raw bits.
    pub fn bits(&self) -> (b: T)
        ensures
            b == self.bits,
    {
        self.bits
    }
}

impl<T: Register> R<T> {
    /// The bits of the register.
    pub fn bits(&self) -> (b: u16)
        ensures
            b == self.0@,
    {
        self.0.to_bits()
    }
}

impl<T: Register> W<T> {
    /// Set all bits of the register.
    pub fn bits(self, bits: u16) -> (w: W<T>)
        ensures
            w.0@ == bits,
    {
        proof {
            T::lemma_from_bits(bits);
        }
        W(T::from_bits(bits))
    }

    /// Reset the writable fields of the register to their default state.
    pub fn reset(self) -> (w: W<T>)
        ensures
            w.0@ == merge16(self.0@, default_bits(T::spec_address()), reset_mask(T::spec_address())),
    {
        let a = T::address();
        let d = a.default_word();
        let m = a.reset_word();
        let bits = (self.0.to_bits() & !m) | (d & m);
        proof {
            T::lemma_from_bits(bits);
        }
        W(T::from_bits(bits))
    }
}

impl<T: Register> BitW<T> {
    /// Set the value as a raw bit, where true is 1, false is 0.
    pub fn bit(self, bit: bool) -> (w: W<T>)
        ensures
            w.0@ == merge16(self.w.0@, if bit { self.mask } else { 0 }, self.mask),
    {
        let d: u16 = if bit {
            self.mask
        } else {
            0
        };
        let bits = (self.w.0.to_bits() & !self.mask) | (d & self.mask);
        proof {
            T::lemma_from_bits(bits);
        }
        W(T::from_bits(bits))
    }

    /// Set the field bit (to 1).
    pub fn set_bit(self) -> (w: W<T>)
        ensures
            w.0@ == merge16(self.w.0@, self.mask, self.mask),
    {
        self.bit(true)
    }

    /// Clear the field bit (to 0).
    pub fn clear_bit(self) -> (w: W<T>)
        ensures
            w.0@ == merge16(self.w.0@, 0, self.mask),
    {
        self.bit(false)
    }

    /// Reset the field to its default value.
    pub fn reset(self) -> (w: W<T>)
        ensures
            w.0@ == merge16(self.w.0@, default_bits(T::spec_address()), self.mask),
    {
        let d = T::address().default_word();
        let bits = (self.w.0.to_bits() & !self.mask) | (d & self.mask);
        proof {
            T::lemma_from_bits(bits);
        }
        W(T::from_bits(bits))
    }
}

impl<T: Register> BitsW<T> {
    /// Store `bits` in the field; bits that do not fit in the field are dropped.
    pub fn bits(self, bits: u16) -> (w: W<T>)
        requires
            self.shift < 16,
        ensures
            w.0@ == merge16(self.w.0@, bits << self.shift, self.mask),
    {
        let d = bits << self.shift;
        let out = (self.w.0.to_bits() & !self.mask) | (d & self.mask);
        proof {
            T::lemma_from_bits(out);
        }
        W(T::from_bits(out))
    }

    /// Reset the field to its default value.
    pub fn reset(self) -> (w: W<T>)
        ensures
            w.0@ == merge16(self.w.0@, default_bits(T::spec_address()), self.mask),
    {
        let d = T::address().default_word();
        let out = (self.w.0.to_bits() & !self.mask) | (d & self.mask);
        proof {
            T::lemma_from_bits(out);
        }
        W(T::from_bits(out))
    }
}

/// Resetting every writable field of a register gives its default value, provided that the
/// bits that no reset touches already hold their default.
pub proof fn lemma_reset_gives_default(a: Address, v: u16)
    requires
        v & !reset_mask(a) == default_bits(a) & !reset_mask(a),
    ensures
        merge16(v, default_bits(a), reset_mask(a)) == default_bits(a),
{
    crate::word::lemma_reset_restores16(v, default_bits(a), reset_mask(a));
}

/// Resetting the writable fields of the register at `a` one after the other, in any order,
/// gives its default word, provided that the masks reset cover exactly its writable fields with
/// a default and that the other bits already hold their default.
pub proof fn lemma_field_resets_give_default(a: Address, v: u16, ms: Seq<u16>)
    requires
        crate::word::union16(ms) == reset_mask(a),
        v & !reset_mask(a) == default_bits(a) & !reset_mask(a),
    ensures
        crate::word::resets16(v, default_bits(a), ms) == default_bits(a),
{
    crate::word::lemma_resets_in_any_order16(v, default_bits(a), ms);
    crate::word::lemma_reset_restores16(v, default_bits(a), reset_mask(a));
}

/// The register of type `Q` held in `s`, if `s` holds that type.
pub open spec fn downcast<Q: Register>(s: State) -> Option<Q> {
    if s.spec_addr() == Q::spec_address() {
        Some(Q::spec_from_bits(s.spec_bits()))
    } else {
        None
    }
}

impl State {
    /// Construct a register state from its address and data.
    pub fn from_addr_and_data(addr: Address, data: u16) -> (s: State)
        ensures
            s == state_of(addr, data),
    {
        addr.state(data)
    }

    /// Construct the default register state associated with the given address.
    pub fn from_addr_default(addr: Address) -> (s: State)
        ensures
            s == state_of(addr, default_bits(addr)),
    {
        addr.state(addr.default_word())
    }

    /// Attempt to retrieve the register of type `Q` from the dynamic register representation.
    ///
    /// Returns an `Err` if the register type does not match.
    pub fn reg<Q: Register>(&self) -> (r: Result<Q, InvalidAddress>)
        ensures
            r == match downcast::<Q>(*self) {
                Some(q) => Ok(q),
                None => Err(InvalidAddress),
            },
    {
        if self.addr() == Q::address() {
            Ok(Q::from_bits(self.bits()))
        } else {
            Err(InvalidAddress)
        }
    }
}

/// A state built from an address and a raw word holds that address and that word.
pub proof fn lemma_state_of(a: Address, v: u16)
    ensures
        state_of(a, v).spec_addr() == a,
        state_of(a, v).spec_bits() == v,
{
    a.lemma_state(v);
}

/// The state built from the address of `Q` and any raw word downcasts to `Q`, and the register
/// obtained holds that word unchanged.
pub proof fn lemma_downcast_round_trip<Q: Register>(v: u16)
    ensures
        downcast::<Q>(state_of(Q::spec_address(), v)) is Some,
        downcast::<Q>(state_of(Q::spec_address(), v))->Some_0@ == v,
{
    lemma_state_of(Q::spec_address(), v);
    Q::lemma_from_bits(v);
}

/// The state built from an address other than the address of `Q` does not downcast to `Q`.
pub proof fn lemma_downcast_mismatch<Q: Register>(a: Address, v: u16)
    requires
        a != Q::spec_address(),
    ensures
        downcast::<Q>(state_of(a, v)) is None,
{
    lemma_state_of(a, v);
}

/// A numeric code names a register exactly when converting that register's address back gives
/// the code; every address converts to a code that names it.
pub proof fn lemma_code_round_trip(c: u8, a: Address)
    ensures
        address_of(code_of(a)) == Some(a),
        address_of(c) == Some(a) <==> code_of(a) == c,
{
    a.lemma_code();
}

impl From<Address> for u8 {
    fn from(a: Address) -> (c: u8) {
        a.code()
    }
}

impl vstd::std_specs::convert::FromSpecImpl<Address> for u8 {
    open spec fn obeys_from_spec() -> bool {
        true
    }

    open spec fn from_spec(a: Address) -> u8 {
        code_of(a)
    }
}

impl core::convert::TryFrom<u8> for Address {
    type Error = InvalidAddress;

    fn try_from(c: u8) -> (r: Result<Address, InvalidAddress>) {
        match Address::from_code(c) {
            Some(a) => Ok(a),
            None => Err(InvalidAddress),
        }
    }
}

impl vstd::std_specs::convert::TryFromSpecImpl<u8> for Address {
    open spec fn obeys_try_from_spec() -> bool {
        true
    }

    open spec fn try_from_spec(c: u8) -> Result<Address, InvalidAddress> {
        match address_of(c) {
            Some(a) => Ok(a),
            None => Err(InvalidAddress),
        }
    }
}

impl From<State> for u16 {
    fn from(s: State) -> (b: u16) {
        s.bits()
    }
}

impl vstd::std_specs::convert::FromSpecImpl<State> for u16 {
    open spec fn obeys_from_spec() -> bool {
        true
    }

    open spec fn from_spec(s: State) -> u16 {
        s.spec_bits()
    }
}

/// The state of every register, one slot per address.
///
/// Every slot is always populated, and a slot only ever holds the state of the register at its
/// own address. The view maps each address to the raw word of its register.
#[derive(Clone, Copy, Debug)]
pub struct RegMap {
    words: [u16; COUNT],
}

impl View for RegMap {
    type V = Map<Address, u16>;

    closed spec fn view(&self) -> Map<Address, u16> {
        Map::total(|a: Address| self.words@[index_of(a)])
    }
}

impl Default for RegMap {
    fn default() -> (m: RegMap)
        ensures
            m@ == Map::total(|a: Address| default_bits(a)),
    {
        let mut words: [u16; COUNT] = [0; COUNT];
        let mut i: usize = 0;
        while i < COUNT
            invariant
                0 <= i <= COUNT,
                forall|j: int| 0 <= j < i ==> words@[j] == default_bits(#[trigger] address_at(j)),
            decreases COUNT - i,
        {
            proof {
                lemma_at(i as int);
            }
            words[i] = Address::at(i).default_word();
            i += 1;
        }
        let m = RegMap { words };
        assert forall|a: Address| #[trigger] m@[a] == default_bits(a) by {
            a.lemma_index();
        }
        assert(m@ =~= Map::total(|a: Address| default_bits(a)));
        m
    }
}

impl RegMap {
    /// The map holds a register for every address.
    pub proof fn lemma_total(&self)
        ensures
            self@.dom() == Set::<Address>::full(),
    {
        assert(self@.dom() =~= Set::<Address>::full());
    }

    /// The dynamic representation of the register state at the given address.
    pub fn state(&self, addr: Address) -> (s: State)
        ensures
            s == state_of(addr, self@[addr]),
    {
        proof {
            addr.lemma_index();
        }
        addr.state(self.words[addr.index()])
    }

    /// Update the given register state.
    pub fn set_state(&mut self, state: State)
        ensures
            final(self)@ == old(self)@.insert(state.spec_addr(), state.spec_bits()),
    {
        let a = state.addr();
        self.put(a, state.bits());
    }

    /// The register of the given type.
    pub fn reg<Q: Register>(&self) -> (r: Q)
        ensures
            r@ == self@[Q::spec_address()],
    {
        let a = Q::address();
        proof {
            a.lemma_index();
            Q::lemma_from_bits(self.words@[index_of(a)]);
        }
        Q::from_bits(self.words[a.index()])
    }

    /// Replace the register of the given type.
    pub fn set_reg<Q: Register>(&mut self, r: Q)
        ensures
            final(self)@ == old(self)@.insert(Q::spec_address(), r@),
    {
        let a = Q::address();
        self.put(a, r.to_bits());
    }

    fn put(&mut self, a: Address, bits: u16)
        ensures
            final(self)@ == old(self)@.insert(a, bits),
    {
        proof {
            a.lemma_index();
        }
        self.words[a.index()] = bits;
        proof {
            assert forall|b: Address| #[trigger] self@[b] == old(self)@.insert(a, bits)[b] by {
                b.lemma_index();
            }
            assert(self@ =~= old(self)@.insert(a, bits));
        }
    }
}

/// A trait for reading from the MIIM interface.
pub trait Read: Sized {
    /// Errors that might occur on the MIIM interface.
    type Error;

    /// Holds when a read of `reg_addr` on the PHY at `phy_addr` may return `r` and take the
    /// interface from `self` to `post`. An interface that does not say promises nothing.
    open spec fn read_spec(
        self,
        post: Self,
        phy_addr: u8,
        reg_addr: u8,
        r: Result<u16, Self::Error>,
    ) -> bool {
        true
    }

    /// Read the data from the given register address associated with the specified PHY.
    fn read(&mut self, phy_addr: u8, reg_addr: u8) -> (r: Result<u16, Self::Error>)
        ensures
            Self::read_spec(*old(self), *final(self), phy_addr, reg_addr, r),
    ;
}

/// A trait for writing to the MIIM interface.
pub trait Write: Sized {
    /// Errors that might occur on the MIIM interface.
    type Error;

    /// Holds when a write of `data` to `reg_addr` on the PHY at `phy_addr` may return `r` and
    /// take the interface from `self` to `post`. An interface that does not say promises nothing.
    open spec fn write_spec(
        self,
        post: Self,
        phy_addr: u8,
        reg_addr: u8,
        data: u16,
        r: Result<(), Self::Error>,
    ) -> bool {
        true
    }

    /// Write to the register at the given address associated with the specified PHY.
    fn write(&mut self, phy_addr: u8, reg_addr: u8, data: u16) -> (r: Result<(), Self::Error>)
        ensures
            Self::write_spec(*old(self), *final(self), phy_addr, reg_addr, data, r),
    ;
}

/// A higher-level wrapper around an `miim::Read` and/or `miim::Write` implementation.
pub struct Miim<T>(pub T);

/// A wrapper around an `miim::Read` and/or `miim::Write` implementation for a particular PHY.
pub struct Phy<'miim, T> {
    pub miim: &'miim mut Miim<T>,
    pub addr: u8,
}

/// A wrapper around an `miim::Read` and/or `miim::Write` implementation for a particular register
/// on a particular PHY.
pub struct PhyReg<'phy, 'miim, T, Q> {
    pub phy: &'phy mut Phy<'miim, T>,
    pub reg: core::marker::PhantomData<Q>,
}

/// The default PHY addresses of the two PHYs on the KSZ8863.
pub fn default_phy_addrs() -> (a: [u8; 2])
    ensures
        a@ == seq![0x01u8, 0x02u8],
{
    let a = [0x01u8, 0x02u8];
    assert(a@ =~= seq![0x01u8, 0x02u8]);
    a
}

impl<T> Miim<T> {
    /// Address a particular PHY over MIIM.
    pub fn phy(&mut self, addr: u8) -> (p: Phy<'_, T>)
        ensures
            p.addr == addr,
            *p.miim == *old(self),
            *final(self) == *final(p.miim),
    {
        Phy { miim: self, addr }
    }
}

impl<'miim, T> Phy<'miim, T> {
    /// Access a particular register associated with this PHY.
    pub fn reg<'phy, Q>(&'phy mut self) -> (r: PhyReg<'phy, 'miim, T, Q>)
        ensures
            *r.phy == *old(self),
            *final(self) == *final(r.phy),
    {
        PhyReg { phy: self, reg: core::marker::PhantomData }
    }
}

impl<'miim, T: Read> Phy<'miim, T> {
    /// Read the register with the given address.
    pub fn read(&mut self, addr: Address) -> (r: Result<State, T::Error>)
        ensures
            final(self).addr == old(self).addr,
            match r {
                Ok(s) => s == state_of(addr, s.spec_bits()) && T::read_spec(
                    old(self).miim.0,
                    final(self).miim.0,
                    old(self).addr,
                    code_of(addr),
                    Ok(s.spec_bits()),
                ),
                Err(e) => T::read_spec(
                    old(self).miim.0,
                    final(self).miim.0,
                    old(self).addr,
                    code_of(addr),
                    Err(e),
                ),
            },
    {
        match self.miim.0.read(self.addr, addr.code()) {
            Ok(bits) => {
                proof {
                    lemma_state_of(addr, bits);
                }
                Ok(State::from_addr_and_data(addr, bits))
            },
            Err(e) => Err(e),
        }
    }
}

impl<'miim, T: Write> Phy<'miim, T> {
    /// Write the given register state to the register with the associated address.
    pub fn write(&mut self, state: State) -> (r: Result<(), T::Error>)
        ensures
            final(self).addr == old(self).addr,
            T::write_spec(
                old(self).miim.0,
                final(self).miim.0,
                old(self).addr,
                code_of(state.spec_addr()),
                state.spec_bits(),
                r,
            ),
    {
        self.miim.0.write(self.addr, state.addr().code(), state.bits())
    }
}

impl<'phy, 'miim, T: Read, Q: Register> PhyReg<'phy, 'miim, T, Q> {
    /// Read from the register `Q` associated with the specified PHY.
    pub fn read(&mut self) -> (r: Result<Q, T::Error>)
        ensures
            final(self).phy.addr == old(self).phy.addr,
            match r {
                Ok(q) => T::read_spec(
                    old(self).phy.miim.0,
                    final(self).phy.miim.0,
                    old(self).phy.addr,
                    code_of(Q::spec_address()),
                    Ok(q@),
                ),
                Err(e) => T::read_spec(
                    old(self).phy.miim.0,
                    final(self).phy.miim.0,
                    old(self).phy.addr,
                    code_of(Q::spec_address()),
                    Err(e),
                ),
            },
    {
        match self.phy.miim.0.read(self.phy.addr, Q::address().code()) {
            Ok(bits) => {
                proof {
                    Q::lemma_from_bits(bits);
                }
                Ok(Q::from_bits(bits))
            },
            Err(e) => Err(e),
        }
    }
}

impl<'phy, 'miim, T: Write, Q: Register> PhyReg<'phy, 'miim, T, Q> {
    /// Write to the register `Q` associated with the specified PHY, starting from its default
    /// state.
    ///
    /// Fields that `write` does not set keep their default value, whatever the register held.
    pub fn write<F: FnOnce(W<Q>) -> W<Q>>(&mut self, write: F) -> (r: Result<(), T::Error>)
        requires
            write.requires((W(default_reg::<Q>()),)),
        ensures
            final(self).phy.addr == old(self).phy.addr,
            exists|w: W<Q>|
                write.ensures((W(default_reg::<Q>()),), w) && T::write_spec(
                    old(self).phy.miim.0,
                    final(self).phy.miim.0,
                    old(self).phy.addr,
                    code_of(Q::spec_address()),
                    w.0@,
                    r,
                ),
    {
        let a = Q::address();
        let w = write(W(Q::from_bits(a.default_word())));
        let r = self.phy.miim.0.write(self.phy.addr, a.code(), w.0.to_bits());
        assert(write.ensures((W(default_reg::<Q>()),), w));
        r
    }
}

impl<'phy, 'miim, T, Q: Register> PhyReg<'phy, 'miim, T, Q> {
    /// Modify the register `Q` associated with the specified PHY.
    ///
    /// This first reads the value from the register, delivers it to the `modify` function, and
    /// then writes the result. Fields that `modify` does not set keep the value that was read.
    pub fn modify<F, E>(&mut self, modify: F) -> (r: Result<(), E>) where
        T: Read<Error = E> + Write<Error = E>,
        F: FnOnce(W<Q>) -> W<Q>,

        requires
            forall|q: Q| modify.requires((W(q),)),
        ensures
            final(self).phy.addr == old(self).phy.addr,
            (exists|mid: T, bits: u16, w: W<Q>|
                {
                    &&& T::read_spec(
                        old(self).phy.miim.0,
                        mid,
                        old(self).phy.addr,
                        code_of(Q::spec_address()),
                        Ok(bits),
                    )
                    &&& modify.ensures((W(Q::spec_from_bits(bits)),), w)
                    &&& T::write_spec(
                        mid,
                        final(self).phy.miim.0,
                        old(self).phy.addr,
                        code_of(Q::spec_address()),
                        w.0@,
                        r,
                    )
                }) || (exists|e: E|
                {
                    &&& T::read_spec(
                        old(self).phy.miim.0,
                        final(self).phy.miim.0,
                        old(self).phy.addr,
                        code_of(Q::spec_address()),
                        Err(e),
                    )
                    &&& r == Err::<(), E>(e)
                }),
    {
        let c = Q::address().code();
        let p = self.phy.addr;
        let ghost pre = self.phy.miim.0;
        match self.phy.miim.0.read(p, c) {
            Ok(bits) => {
                let ghost mid = self.phy.miim.0;
                let w = modify(W(Q::from_bits(bits)));
                let r = self.phy.miim.0.write(p, c, w.0.to_bits());
                assert(T::read_spec(pre, mid, p, c, Ok(bits)));
                assert(modify.ensures((W(Q::spec_from_bits(bits)),), w));
                assert(T::write_spec(mid, self.phy.miim.0, p, c, w.0@, r));
                r
            },
            Err(e) => {
                assert(T::read_spec(pre, self.phy.miim.0, p, c, Err(e)));
                Err(e)
            },
        }
    }
}

impl Read for RegMap {
    type Error = InvalidAddress;

    open spec fn read_spec(
        self,
        post: Self,
        phy_addr: u8,
        reg_addr: u8,
        r: Result<u16, InvalidAddress>,
    ) -> bool {
        &&& post@ == self@
        &&& r == match address_of(reg_addr) {
            Some(a) => Ok(self@[a]),
            None => Err(InvalidAddress),
        }
    }

    fn read(&mut self, phy_addr: u8, reg_addr: u8) -> (r: Result<u16, InvalidAddress>) {
        match Address::from_code(reg_addr) {
            Some(a) => {
                let s = self.state(a);
                proof {
                    lemma_state_of(a, self@[a]);
                }
                Ok(s.bits())
            },
            None => Err(InvalidAddress),
        }
    }
}

impl Write for RegMap {
    type Error = InvalidAddress;

    open spec fn write_spec(
        self,
        post: Self,
        phy_addr: u8,
        reg_addr: u8,
        data: u16,
        r: Result<(), InvalidAddress>,
    ) -> bool {
        match address_of(reg_addr) {
            Some(a) => r is Ok && post@ == self@.insert(a, data),
            None => r == Err::<(), InvalidAddress>(InvalidAddress) && post@ == self@,
        }
    }

    fn write(&mut self, phy_addr: u8, reg_addr: u8, data: u16) -> (r: Result<(), InvalidAddress>) {
        match Address::from_code(reg_addr) {
            Some(a) => {
                self.set_state(State::from_addr_and_data(a, data));
                proof {
                    lemma_state_of(a, data);
                }
                Ok(())
            },
            None => Err(InvalidAddress),
        }
    }
}

/// On the map, which holds one register bank for every PHY address, writing a word to a register and then reading that register returns the word
/// written, whatever the register held before.
pub proof fn lemma_map_write_then_read(
    pre: RegMap,
    mid: RegMap,
    post: RegMap,
    a: Address,
    phy_w: u8,
    phy_r: u8,
    data: u16,
    rw: Result<(), InvalidAddress>,
    rr: Result<u16, InvalidAddress>,
)
    requires
        pre.write_spec(mid, phy_w, code_of(a), data, rw),
        mid.read_spec(post, phy_r, code_of(a), rr),
    ensures
        rw is Ok,
        rr == Ok::<u16, InvalidAddress>(data),
{
    a.lemma_code();
}

/// On the map, which holds one register bank for every PHY address, reading a register returns the word it holds; writing back a word then leaves
/// that word in the register and every other register as it was.
pub proof fn lemma_map_read_then_write(
    pre: RegMap,
    mid: RegMap,
    post: RegMap,
    a: Address,
    other: Address,
    phy: u8,
    bits: u16,
    data: u16,
    rw: Result<(), InvalidAddress>,
)
    requires
        pre.read_spec(mid, phy, code_of(a), Ok(bits)),
        mid.write_spec(post, phy, code_of(a), data, rw),
        other != a,
    ensures
        bits == pre@[a],
        rw is Ok,
        post@[a] == data,
        post@[other] == pre@[other],
{
    a.lemma_code();
}

/// The addresses of the documented MIIM registers.
#[derive(Clone, Copy, Debug, PartialEq, Eq, Structural, Hash, PartialOrd, Ord)]
pub enum Address {
    Bcr,
    Bsr,
    PhyIdR1,
    PhyIdR2,
    Anar,
    Anlpar,
    LinkMd,
    PhySpecial,
}

/// The number of documented registers.
pub const COUNT: usize = 8;

/// The numeric code of an address.
pub open spec fn code_of(a: Address) -> u8 {
    match a {
        Address::Bcr => 0x00,
        Address::Bsr => 0x01,
        Address::PhyIdR1 => 0x02,
        Address::PhyIdR2 => 0x03,
        Address::Anar => 0x04,
        Address::Anlpar => 0x05,
        Address::LinkMd => 0x1d,
        Address::PhySpecial => 0x1f,
    }
}

/// The address with the given numeric code, if one is documented.
pub open spec fn address_of(c: u8) -> Option<Address> {
    match c {
        0x00 => Some(Address::Bcr),
        0x01 => Some(Address::Bsr),
        0x02 => Some(Address::PhyIdR1),
        0x03 => Some(Address::PhyIdR2),
        0x04 => Some(Address::Anar),
        0x05 => Some(Address::Anlpar),
        0x1d => Some(Address::LinkMd),
        0x1f => Some(Address::PhySpecial),
        _ => None,
    }
}

/// The raw word of the register at `a` with every field at its default.
pub open spec fn default_bits(a: Address) -> u16 {
    match a {
        Address::Bcr => 0x1020,
        Address::Bsr => 0x7808,
        Address::PhyIdR1 => 0x0022,
        Address::PhyIdR2 => 0x1430,
        Address::Anar => 0x05e0,
        Address::Anlpar => 0x0000,
        Address::LinkMd => 0x0000,
        Address::PhySpecial => 0x0004,
    }
}

/// The bits of the register at `a` that belong to a writable field with a default.
pub open spec fn reset_mask(a: Address) -> u16 {
    match a {
        Address::Bcr => 0x7b3f,
        Address::Bsr => 0x0000,
        Address::PhyIdR1 => 0x0000,
        Address::PhyIdR2 => 0xffff,
        Address::Anar => 0x05e0,
        Address::Anlpar => 0x0000,
        Address::LinkMd => 0x8000,
        Address::PhySpecial => 0x000e,
    }
}

/// The slot of the register at `a` in a map.
pub open spec fn index_of(a: Address) -> int {
    match a {
        Address::Bcr => 0,
        Address::Bsr => 1,
        Address::PhyIdR1 => 2,
        Address::PhyIdR2 => 3,
        Address::Anar => 4,
        Address::Anlpar => 5,
        Address::LinkMd => 6,
        Address::PhySpecial => 7,
    }
}

/// The address whose register is held in slot `i` of a map.
pub open spec fn address_at(i: int) -> Address {
    if i == 0 {
        Address::Bcr
    } else if i == 1 {
        Address::Bsr
    } else if i == 2 {
        Address::PhyIdR1
    } else if i == 3 {
        Address::PhyIdR2
    } else if i == 4 {
        Address::Anar
    } else if i == 5 {
        Address::Anlpar
    } else if i == 6 {
        Address::LinkMd
    } else {
        Address::PhySpecial
    }
}

/// The state of the register at `a` holding the raw word `v`.
pub open spec fn state_of(a: Address, v: u16) -> State {
    match a {
        Address::Bcr => State::Bcr(<Bcr as Register>::spec_from_bits(v)),
        Address::Bsr => State::Bsr(<Bsr as Register>::spec_from_bits(v)),
        Address::PhyIdR1 => State::PhyIdR1(<PhyIdR1 as Register>::spec_from_bits(v)),
        Address::PhyIdR2 => State::PhyIdR2(<PhyIdR2 as Register>::spec_from_bits(v)),
        Address::Anar => State::Anar(<Anar as Register>::spec_from_bits(v)),
        Address::Anlpar => State::Anlpar(<Anlpar as Register>::spec_from_bits(v)),
        Address::LinkMd => State::LinkMd(<LinkMd as Register>::spec_from_bits(v)),
        Address::PhySpecial => State::PhySpecial(<PhySpecial as Register>::spec_from_bits(v)),
    }
}

/// Every address is held in its own slot of a map.
pub proof fn lemma_at(i: int)
    requires
        0 <= i < COUNT,
    ensures
        index_of(address_at(i)) == i,
{
}

impl Address {
    /// All register addresses, in the order of their slots in a map.
    pub fn all() -> (v: Vec<Address>)
        ensures
            v@.len() == COUNT,
            forall|i: int| 0 <= i < COUNT ==> v@[i] == address_at(i),
            forall|a: Address| v@.contains(a),
    {
        let mut v: Vec<Address> = Vec::new();
        let mut i: usize = 0;
        while i < COUNT
            invariant
                0 <= i <= COUNT,
                v@.len() == i,
                forall|j: int| 0 <= j < i ==> v@[j] == address_at(j),
            decreases COUNT - i,
        {
            v.push(Address::at(i));
            i += 1;
        }
        assert forall|a: Address| v@.contains(a) by {
            a.lemma_index();
            assert(v@[index_of(a)] == a);
        }
        v
    }

    /// The address whose register is held in slot `i` of a map.
    pub fn at(i: usize) -> (a: Address)
        requires
            i < COUNT,
        ensures
            a == address_at(i as int),
    {
        match i {
            0 => Address::Bcr,
            1 => Address::Bsr,
            2 => Address::PhyIdR1,
            3 => Address::PhyIdR2,
            4 => Address::Anar,
            5 => Address::Anlpar,
            6 => Address::LinkMd,
            _ => Address::PhySpecial,
        }
    }

    /// The slot of the register in a map.
    pub fn index(self) -> (i: usize)
        ensures
            i == index_of(self),
    {
        match self {
            Address::Bcr => 0,
            Address::Bsr => 1,
            Address::PhyIdR1 => 2,
            Address::PhyIdR2 => 3,
            Address::Anar => 4,
            Address::Anlpar => 5,
            Address::LinkMd => 6,
            Address::PhySpecial => 7,
        }
    }

    /// The numeric code of the address.
    pub fn code(self) -> (c: u8)
        ensures
            c == code_of(self),
    {
        match self {
            Address::Bcr => 0x00,
            Address::Bsr => 0x01,
            Address::PhyIdR1 => 0x02,
            Address::PhyIdR2 => 0x03,
            Address::Anar => 0x04,
            Address::Anlpar => 0x05,
            Address::LinkMd => 0x1d,
            Address::PhySpecial => 0x1f,
        }
    }

    /// The address with the given numeric code, if one is documented.
    pub fn from_code(c: u8) -> (a: Option<Address>)
        ensures
            a == address_of(c),
    {
        match c {
            0x00 => Some(Address::Bcr),
            0x01 => Some(Address::Bsr),
            0x02 => Some(Address::PhyIdR1),
            0x03 => Some(Address::PhyIdR2),
            0x04 => Some(Address::Anar),
            0x05 => Some(Address::Anlpar),
            0x1d => Some(Address::LinkMd),
            0x1f => Some(Address::PhySpecial),
            _ => None,
        }
    }

    /// The raw word of the register with every field at its default.
    pub fn default_word(self) -> (v: u16)
        ensures
            v == default_bits(self),
    {
        match self {
            Address::Bcr => 0x1020,
            Address::Bsr => 0x7808,
            Address::PhyIdR1 => 0x0022,
            Address::PhyIdR2 => 0x1430,
            Address::Anar => 0x05e0,
            Address::Anlpar => 0x0000,
            Address::LinkMd => 0x0000,
            Address::PhySpecial => 0x0004,
        }
    }

    /// The bits of the register that belong to a writable field with a default.
    pub fn reset_word(self) -> (v: u16)
        ensures
            v == reset_mask(self),
    {
        match self {
            Address::Bcr => 0x7b3f,
            Address::Bsr => 0x0000,
            Address::PhyIdR1 => 0x0000,
            Address::PhyIdR2 => 0xffff,
            Address::Anar => 0x05e0,
            Address::Anlpar => 0x0000,
            Address::LinkMd => 0x8000,
            Address::PhySpecial => 0x000e,
        }
    }

    /// The state of the register at this address holding the raw word `v`.
    pub fn state(self, v: u16) -> (s: State)
        ensures
            s == state_of(self, v),
    {
        match self {
            Address::Bcr => State::Bcr(Bcr { bits: v }),
            Address::Bsr => State::Bsr(Bsr { bits: v }),
            Address::PhyIdR1 => State::PhyIdR1(PhyIdR1 { bits: v }),
            Address::PhyIdR2 => State::PhyIdR2(PhyIdR2 { bits: v }),
            Address::Anar => State::Anar(Anar { bits: v }),
            Address::Anlpar => State::Anlpar(Anlpar { bits: v }),
            Address::LinkMd => State::LinkMd(LinkMd { bits: v }),
            Address::PhySpecial => State::PhySpecial(PhySpecial { bits: v }),
        }
    }

    /// The slot of the address holds the address back.
    pub proof fn lemma_index(self)
        ensures
            0 <= index_of(self) < COUNT,
            address_at(index_of(self)) == self,
    {
    }

    /// The code of the address names the address, and no other code does.
    pub proof fn lemma_code(self)
        ensures
            address_of(code_of(self)) == Some(self),
            forall|c: u8| address_of(c) == Some(self) <==> code_of(self) == c,
    {
    }

    /// The state built at this address holds the address and the word it was built from.
    #[verifier::spinoff_prover]
    #[verifier::rlimit(100)]
    pub proof fn lemma_state(self, v: u16)
        ensures
            state_of(self, v).spec_addr() == self,
            state_of(self, v).spec_bits() == v,
    {
        match self {
            Address::Bcr => <Bcr as Register>::lemma_from_bits(v),
            Address::Bsr => <Bsr as Register>::lemma_from_bits(v),
            Address::PhyIdR1 => <PhyIdR1 as Register>::lemma_from_bits(v),
            Address::PhyIdR2 => <PhyIdR2 as Register>::lemma_from_bits(v),
            Address::Anar => <Anar as Register>::lemma_from_bits(v),
            Address::Anlpar => <Anlpar as Register>::lemma_from_bits(v),
            Address::LinkMd => <LinkMd as Register>::lemma_from_bits(v),
            Address::PhySpecial => <PhySpecial as Register>::lemma_from_bits(v),
        }
    }
}

/// A dynamic representation of a register's state.
#[derive(Clone, Copy, Debug, PartialEq, Eq, Structural, Hash)]
pub enum State {
    Bcr(Bcr),
    Bsr(Bsr),
    PhyIdR1(PhyIdR1),
    PhyIdR2(PhyIdR2),
    Anar(Anar),
    Anlpar(Anlpar),
    LinkMd(LinkMd),
    PhySpecial(PhySpecial),
}

impl State {
    /// The address of the register held.
    pub open spec fn spec_addr(self) -> Address {
        match self {
            State::Bcr(_) => Address::Bcr,
            State::Bsr(_) => Address::Bsr,
            State::PhyIdR1(_) => Address::PhyIdR1,
            State::PhyIdR2(_) => Address::PhyIdR2,
            State::Anar(_) => Address::Anar,
            State::Anlpar(_) => Address::Anlpar,
            State::LinkMd(_) => Address::LinkMd,
            State::PhySpecial(_) => Address::PhySpecial,
        }
    }

    /// The raw word of the register held.
    pub open spec fn spec_bits(self) -> u16 {
        match self {
            State::Bcr(r) => r@,
            State::Bsr(r) => r@,
            State::PhyIdR1(r) => r@,
            State::PhyIdR2(r) => r@,
            State::Anar(r) => r@,
            State::Anlpar(r) => r@,
            State::LinkMd(r) => r@,
            State::PhySpecial(r) => r@,
        }
    }

    /// The address of the register with which this state is associated.
    pub fn addr(&self) -> (a: Address)
        ensures
            a == self.spec_addr(),
    {
        match self {
            State::Bcr(_) => Address::Bcr,
            State::Bsr(_) => Address::Bsr,
            State::PhyIdR1(_) => Address::PhyIdR1,
            State::PhyIdR2(_) => Address::PhyIdR2,
            State::Anar(_) => Address::Anar,
            State::Anlpar(_) => Address::Anlpar,
            State::LinkMd(_) => Address::LinkMd,
            State::PhySpecial(_) => Address::PhySpecial,
        }
    }

    /// The raw word of the register held.
    pub fn bits(&self) -> (b: u16)
        ensures
            b == self.spec_bits(),
    {
        match self {
            State::Bcr(r) => r.bits,
            State::Bsr(r) => r.bits,
            State::PhyIdR1(r) => r.bits,
            State::PhyIdR2(r) => r.bits,
            State::Anar(r) => r.bits,
            State::Anlpar(r) => r.bits,
            State::LinkMd(r) => r.bits,
            State::PhySpecial(r) => r.bits,
        }
    }
}

/// The `Bcr` register, at address `0x00`.
#[derive(Clone, Copy, Debug, PartialEq, Eq, Structural, Hash)]
pub struct Bcr {
    bits: u16,
}

impl View for Bcr {
    type V = u16;

    closed spec fn view(&self) -> u16 {
        self.bits
    }
}

impl Register for Bcr {
    open spec fn spec_address() -> Address {
        Address::Bcr
    }

    closed spec fn spec_from_bits(bits: u16) -> Bcr {
        Bcr { bits }
    }

    proof fn lemma_from_bits(bits: u16) {
    }

    fn address() -> (a: Address) {
        Address::Bcr
    }

    fn from_bits(bits: u16) -> (r: Bcr) {
        Bcr { bits }
    }

    fn to_bits(&self) -> (b: u16) {
        self.bits
    }
}

impl Default for Bcr {
    fn default() -> (r: Bcr)
        ensures
            r@ == default_bits(Address::Bcr),
    {
        Bcr { bits: 0x1020 }
    }
}

impl From<u16> for Bcr {
    fn from(bits: u16) -> (r: Bcr) {
        Bcr { bits }
    }
}

impl vstd::std_specs::convert::FromSpecImpl<u16> for Bcr {
    open spec fn obeys_from_spec() -> bool {
        true
    }

    open spec fn from_spec(bits: u16) -> Bcr {
        <Bcr as Register>::spec_from_bits(bits)
    }
}

impl From<Bcr> for u16 {
    fn from(r: Bcr) -> (bits: u16) {
        r.bits
    }
}

impl vstd::std_specs::convert::FromSpecImpl<Bcr> for u16 {
    open spec fn obeys_from_spec() -> bool {
        true
    }

    open spec fn from_spec(r: Bcr) -> u16 {
        r@
    }
}

impl From<Bcr> for State {
    fn from(r: Bcr) -> (s: State) {
        State::Bcr(r)
    }
}

impl vstd::std_specs::convert::FromSpecImpl<Bcr> for State {
    open spec fn obeys_from_spec() -> bool {
        true
    }

    open spec fn from_spec(r: Bcr) -> State {
        State::Bcr(r)
    }
}

impl core::convert::TryFrom<State> for Bcr {
    type Error = InvalidAddress;

    fn try_from(s: State) -> (r: Result<Bcr, InvalidAddress>) {
        match s {
            State::Bcr(r) => Ok(r),
            _ => Err(InvalidAddress),
        }
    }
}

impl vstd::std_specs::convert::TryFromSpecImpl<State> for Bcr {
    open spec fn obeys_try_from_spec() -> bool {
        true
    }

    open spec fn try_from_spec(s: State) -> Result<Bcr, InvalidAddress> {
        match s {
            State::Bcr(r) => Ok(r),
            _ => Err(InvalidAddress),
        }
    }
}

impl Bcr {
    /// Provides read access to the individual fields of the register.
    pub fn read(&self) -> (r: R<Bcr>)
        ensures
            r.0 == *self,
    {
        R(*self)
    }

    /// Provides write access to the individual fields of the register.
    pub fn write(self) -> (w: W<Bcr>)
        ensures
            w.0 == self,
    {
        W(self)
    }
}

impl R<Bcr> {
    /// Read access to the `soft_reset` field.
    pub fn soft_reset(&self) -> (f: BitR)
        ensures
            f.bit == (self.0@ & 0x8000 != 0),
    {
        BitR { bit: self.0.bits & 0x8000 != 0 }
    }

    /// Read access to the `loopback` field.
    pub fn loopback(&self) -> (f: BitR)
        ensures
            f.bit == (self.0@ & 0x4000 != 0),
    {
        BitR { bit: self.0.bits & 0x4000 != 0 }
    }

    /// Read access to the `force_100` field.
    pub fn force_100(&self) -> (f: BitR)
        ensures
            f.bit == (self.0@ & 0x2000 != 0),
    {
        BitR { bit: self.0.bits & 0x2000 != 0 }
    }

    /// Read access to the `enable_autoneg` field.
    pub fn enable_autoneg(&self) -> (f: BitR)
        ensures
            f.bit == (self.0@ & 0x1000 != 0),
    {
        BitR { bit: self.0.bits & 0x1000 != 0 }
    }

    /// Read access to the `power_down` field.
    pub fn power_down(&self) -> (f: BitR)
        ensures
            f.bit == (self.0@ & 0x0800 != 0),
    {
        BitR { bit: self.0.bits & 0x0800 != 0 }
    }

    /// Read access to the `isolate` field.
    pub fn isolate(&self) -> (f: BitR)
        ensures
            f.bit == (self.0@ & 0x0400 != 0),
    {
        BitR { bit: self.0.bits & 0x0400 != 0 }
    }

    /// Read access to the `restart_autoneg` field.
    pub fn restart_autoneg(&self) -> (f: BitR)
        ensures
            f.bit == (self.0@ & 0x0200 != 0),
    {
        BitR { bit: self.0.bits & 0x0200 != 0 }
    }

    /// Read access to the `force_fd` field.
    pub fn force_fd(&self) -> (f: BitR)
        ensures
            f.bit == (self.0@ & 0x0100 != 0),
    {
        BitR { bit: self.0.bits & 0x0100 != 0 }
    }

    /// Read access to the `collision_test` field.
    pub fn collision_test(&self) -> (f: BitR)
        ensures
            f.bit == (self.0@ & 0x0080 != 0),
    {
        BitR { bit: self.0.bits & 0x0080 != 0 }
    }

    /// Read access to the `hp_mdix` field.
    pub fn hp_mdix(&self) -> (f: BitR)
        ensures
            f.bit == (self.0@ & 0x0020 != 0),
    {
        BitR { bit: self.0.bits & 0x0020 != 0 }
    }

    /// Read access to the `force_mdi` field.
    pub fn force_mdi(&self) -> (f: BitR)
        ensures
            f.bit == (self.0@ & 0x0010 != 0),
    {
        BitR { bit: self.0.bits & 0x0010 != 0 }
    }

    /// Read access to the `disable_mdix` field.
    pub fn disable_mdix(&self) -> (f: BitR)
        ensures
            f.bit == (self.0@ & 0x0008 != 0),
    {
        BitR { bit: self.0.bits & 0x0008 != 0 }
    }

    /// Read access to the `disable_far_end_fault` field.
    pub fn disable_far_end_fault(&self) -> (f: BitR)
        ensures
            f.bit == (self.0@ & 0x0004 != 0),
    {
        BitR { bit: self.0.bits & 0x0004 != 0 }
    }

    /// Read access to the `disable_transmit` field.
    pub fn disable_transmit(&self) -> (f: BitR)
        ensures
            f.bit == (self.0@ & 0x0002 != 0),
    {
        BitR { bit: self.0.bits & 0x0002 != 0 }
    }

    /// Read access to the `disable_leds` field.
    pub fn disable_leds(&self) -> (f: BitR)
        ensures
            f.bit == (self.0@ & 0x0001 != 0),
    {
        BitR { bit: self.0.bits & 0x0001 != 0 }
    }
}

impl W<Bcr> {
    /// Write access to the `loopback` field.
    pub fn loopback(self) -> (f: BitW<Bcr>)
        ensures
            f.w == self,
            f.mask == 0x4000,
    {
        BitW { w: self, mask: 0x4000 }
    }

    /// Write access to the `force_100` field.
    pub fn force_100(self) -> (f: BitW<Bcr>)
        ensures
            f.w == self,
            f.mask == 0x2000,
    {
        BitW { w: self, mask: 0x2000 }
    }

    /// Write access to the `enable_autoneg` field.
    pub fn enable_autoneg(self) -> (f: BitW<Bcr>)
        ensures
            f.w == self,
            f.mask == 0x1000,
    {
        BitW { w: self, mask: 0x1000 }
    }

    /// Write access to the `power_down` field.
    pub fn power_down(self) -> (f: BitW<Bcr>)
        ensures
            f.w == self,
            f.mask == 0x0800,
    {
        BitW { w: self, mask: 0x0800 }
    }

    /// Write access to the `restart_autoneg` field.
    pub fn restart_autoneg(self) -> (f: BitW<Bcr>)
        ensures
            f.w == self,
            f.mask == 0x0200,
    {
        BitW { w: self, mask: 0x0200 }
    }

    /// Write access to the `force_fd` field.
    pub fn force_fd(self) -> (f: BitW<Bcr>)
        ensures
            f.w == self,
            f.mask == 0x0100,
    {
        BitW { w: self, mask: 0x0100 }
    }

    /// Write access to the `hp_mdix` field.
    pub fn hp_mdix(self) -> (f: BitW<Bcr>)
        ensures
            f.w == self,
            f.mask == 0x0020,
    {
        BitW { w: self, mask: 0x0020 }
    }

    /// Write access to the `force_mdi` field.
    pub fn force_mdi(self) -> (f: BitW<Bcr>)
        ensures
            f.w == self,
            f.mask == 0x0010,
    {
        BitW { w: self, mask: 0x0010 }
    }

    /// Write access to the `disable_mdix` field.
    pub fn disable_mdix(self) -> (f: BitW<Bcr>)
        ensures
            f.w == self,
            f.mask == 0x0008,
    {
        BitW { w: self, mask: 0x0008 }
    }

    /// Write access to the `disable_far_end_fault` field.
    pub fn disable_far_end_fault(self) -> (f: BitW<Bcr>)
        ensures
            f.w == self,
            f.mask == 0x0004,
    {
        BitW { w: self, mask: 0x0004 }
    }

    /// Write access to the `disable_transmit` field.
    pub fn disable_transmit(self) -> (f: BitW<Bcr>)
        ensures
            f.w == self,
            f.mask == 0x0002,
    {
        BitW { w: self, mask: 0x0002 }
    }

    /// Write access to the `disable_leds` field.
    pub fn disable_leds(self) -> (f: BitW<Bcr>)
        ensures
            f.w == self,
            f.mask == 0x0001,
    {
        BitW { w: self, mask: 0x0001 }
    }
}

/// The `Bsr` register, at address `0x01`.
#[derive(Clone, Copy, Debug, PartialEq, Eq, Structural, Hash)]
pub struct Bsr {
    bits: u16,
}

impl View for Bsr {
    type V = u16;

    closed spec fn view(&self) -> u16 {
        self.bits
    }
}

impl Register for Bsr {
    open spec fn spec_address() -> Address {
        Address::Bsr
    }

    closed spec fn spec_from_bits(bits: u16) -> Bsr {
        Bsr { bits }
    }

    proof fn lemma_from_bits(bits: u16) {
    }

    fn address() -> (a: Address) {
        Address::Bsr
    }

    fn from_bits(bits: u16) -> (r: Bsr) {
        Bsr { bits }
    }

    fn to_bits(&self) -> (b: u16) {
        self.bits
    }
}

impl Default for Bsr {
    fn default() -> (r: Bsr)
        ensures
            r@ == default_bits(Address::Bsr),
    {
        Bsr { bits: 0x7808 }
    }
}

impl From<u16> for Bsr {
    fn from(bits: u16) -> (r: Bsr) {
        Bsr { bits }
    }
}

impl vstd::std_specs::convert::FromSpecImpl<u16> for Bsr {
    open spec fn obeys_from_spec() -> bool {
        true
    }

    open spec fn from_spec(bits: u16) -> Bsr {
        <Bsr as Register>::spec_from_bits(bits)
    }
}

impl From<Bsr> for u16 {
    fn from(r: Bsr) -> (bits: u16) {
        r.bits
    }
}

impl vstd::std_specs::convert::FromSpecImpl<Bsr> for u16 {
    open spec fn obeys_from_spec() -> bool {
        true
    }

    open spec fn from_spec(r: Bsr) -> u16 {
        r@
    }
}

impl From<Bsr> for State {
    fn from(r: Bsr) -> (s: State) {
        State::Bsr(r)
    }
}

impl vstd::std_specs::convert::FromSpecImpl<Bsr> for State {
    open spec fn obeys_from_spec() -> bool {
        true
    }

    open spec fn from_spec(r: Bsr) -> State {
        State::Bsr(r)
    }
}

impl core::convert::TryFrom<State> for Bsr {
    type Error = InvalidAddress;

    fn try_from(s: State) -> (r: Result<Bsr, InvalidAddress>) {
        match s {
            State::Bsr(r) => Ok(r),
            _ => Err(InvalidAddress),
        }
    }
}

impl vstd::std_specs::convert::TryFromSpecImpl<State> for Bsr {
    open spec fn obeys_try_from_spec() -> bool {
        true
    }

    open spec fn try_from_spec(s: State) -> Result<Bsr, InvalidAddress> {
        match s {
            State::Bsr(r) => Ok(r),
            _ => Err(InvalidAddress),
        }
    }
}

impl Bsr {
    /// Provides read access to the individual fields of the register.
    pub fn read(&self) -> (r: R<Bsr>)
        ensures
            r.0 == *self,
    {
        R(*self)
    }

    /// Provides write access to the individual fields of the register.
    pub fn write(self) -> (w: W<Bsr>)
        ensures
            w.0 == self,
    {
        W(self)
    }
}

impl R<Bsr> {
    /// Read access to the `capable_t4` field.
    pub fn capable_t4(&self) -> (f: BitR)
        ensures
            f.bit == (self.0@ & 0x8000 != 0),
    {
        BitR { bit: self.0.bits & 0x8000 != 0 }
    }

    /// Read access to the `capable_100_fd` field.
    pub fn capable_100_fd(&self) -> (f: BitR)
        ensures
            f.bit == (self.0@ & 0x4000 != 0),
    {
        BitR { bit: self.0.bits & 0x4000 != 0 }
    }

    /// Read access to the `capable_100_hd` field.
    pub fn capable_100_hd(&self) -> (f: BitR)
        ensures
            f.bit == (self.0@ & 0x2000 != 0),
    {
        BitR { bit: self.0.bits & 0x2000 != 0 }
    }

    /// Read access to the `capable_10_fd` field.
    pub fn capable_10_fd(&self) -> (f: BitR)
        ensures
            f.bit == (self.0@ & 0x1000 != 0),
    {
        BitR { bit: self.0.bits & 0x1000 != 0 }
    }

    /// Read access to the `capable_10_hd` field.
    pub fn capable_10_hd(&self) -> (f: BitR)
        ensures
            f.bit == (self.0@ & 0x0800 != 0),
    {
        BitR { bit: self.0.bits & 0x0800 != 0 }
    }

    /// Read access to the `preamble_suppressed` field.
    pub fn preamble_suppressed(&self) -> (f: BitR)
        ensures
            f.bit == (self.0@ & 0x0040 != 0),
    {
        BitR { bit: self.0.bits & 0x0040 != 0 }
    }

    /// Read access to the `an_complete` field.
    pub fn an_complete(&self) -> (f: BitR)
        ensures
            f.bit == (self.0@ & 0x0020 != 0),
    {
        BitR { bit: self.0.bits & 0x0020 != 0 }
    }

    /// Read access to the `remote_fault` field.
    pub fn remote_fault(&self) -> (f: BitR)
        ensures
            f.bit == (self.0@ & 0x0010 != 0),
    {
        BitR { bit: self.0.bits & 0x0010 != 0 }
    }

    /// Read access to the `an_capable` field.
    pub fn an_capable(&self) -> (f: BitR)
        ensures
            f.bit == (self.0@ & 0x0008 != 0),
    {
        BitR { bit: self.0.bits & 0x0008 != 0 }
    }

    /// Read access to the `link_status` field.
    pub fn link_status(&self) -> (f: BitR)
        ensures
            f.bit == (self.0@ & 0x0004 != 0),
    {
        BitR { bit: self.0.bits & 0x0004 != 0 }
    }

    /// Read access to the `jabber_test` field.
    pub fn jabber_test(&self) -> (f: BitR)
        ensures
            f.bit == (self.0@ & 0x0002 != 0),
    {
        BitR { bit: self.0.bits & 0x0002 != 0 }
    }

    /// Read access to the `extended_capable` field.
    pub fn extended_capable(&self) -> (f: BitR)
        ensures
            f.bit == (self.0@ & 0x0001 != 0),
    {
        BitR { bit: self.0.bits & 0x0001 != 0 }
    }
}

/// The `PhyIdR1` register, at address `0x02`.
#[derive(Clone, Copy, Debug, PartialEq, Eq, Structural, Hash)]
pub struct PhyIdR1 {
    bits: u16,
}

impl View for PhyIdR1 {
    type V = u16;

    closed spec fn view(&self) -> u16 {
        self.bits
    }
}

impl Register for PhyIdR1 {
    open spec fn spec_address() -> Address {
        Address::PhyIdR1
    }

    closed spec fn spec_from_bits(bits: u16) -> PhyIdR1 {
        PhyIdR1 { bits }
    }

    proof fn lemma_from_bits(bits: u16) {
    }

    fn address() -> (a: Address) {
        Address::PhyIdR1
    }

    fn from_bits(bits: u16) -> (r: PhyIdR1) {
        PhyIdR1 { bits }
    }

    fn to_bits(&self) -> (b: u16) {
        self.bits
    }
}

impl Default for PhyIdR1 {
    fn default() -> (r: PhyIdR1)
        ensures
            r@ == default_bits(Address::PhyIdR1),
    {
        PhyIdR1 { bits: 0x0022 }
    }
}

impl From<u16> for PhyIdR1 {
    fn from(bits: u16) -> (r: PhyIdR1) {
        PhyIdR1 { bits }
    }
}

impl vstd::std_specs::convert::FromSpecImpl<u16> for PhyIdR1 {
    open spec fn obeys_from_spec() -> bool {
        true
    }

    open spec fn from_spec(bits: u16) -> PhyIdR1 {
        <PhyIdR1 as Register>::spec_from_bits(bits)
    }
}

impl From<PhyIdR1> for u16 {
    fn from(r: PhyIdR1) -> (bits: u16) {
        r.bits
    }
}

impl vstd::std_specs::convert::FromSpecImpl<PhyIdR1> for u16 {
    open spec fn obeys_from_spec() -> bool {
        true
    }

    open spec fn from_spec(r: PhyIdR1) -> u16 {
        r@
    }
}

impl From<PhyIdR1> for State {
    fn from(r: PhyIdR1) -> (s: State) {
        State::PhyIdR1(r)
    }
}

impl vstd::std_specs::convert::FromSpecImpl<PhyIdR1> for State {
    open spec fn obeys_from_spec() -> bool {
        true
    }

    open spec fn from_spec(r: PhyIdR1) -> State {
        State::PhyIdR1(r)
    }
}

impl core::convert::TryFrom<State> for PhyIdR1 {
    type Error = InvalidAddress;

    fn try_from(s: State) -> (r: Result<PhyIdR1, InvalidAddress>) {
        match s {
            State::PhyIdR1(r) => Ok(r),
            _ => Err(InvalidAddress),
        }
    }
}

impl vstd::std_specs::convert::TryFromSpecImpl<State> for PhyIdR1 {
    open spec fn obeys_try_from_spec() -> bool {
        true
    }

    open spec fn try_from_spec(s: State) -> Result<PhyIdR1, InvalidAddress> {
        match s {
            State::PhyIdR1(r) => Ok(r),
            _ => Err(InvalidAddress),
        }
    }
}

impl PhyIdR1 {
    /// Provides read access to the individual fields of the register.
    pub fn read(&self) -> (r: R<PhyIdR1>)
        ensures
            r.0 == *self,
    {
        R(*self)
    }

    /// Provides write access to the individual fields of the register.
    pub fn write(self) -> (w: W<PhyIdR1>)
        ensures
            w.0 == self,
    {
        W(self)
    }
}

impl R<PhyIdR1> {
    /// Read access to the `phy_id_high` field.
    pub fn phy_id_high(&self) -> (f: BitsR<u16>)
        ensures
            f.bits == load16(self.0@, 0xffff, 0),
    {
        BitsR { bits: (self.0.bits & 0xffff) >> 0u16 }
    }
}

/// The `PhyIdR2` register, at address `0x03`.
#[derive(Clone, Copy, Debug, PartialEq, Eq, Structural, Hash)]
pub struct PhyIdR2 {
    bits: u16,
}

impl View for PhyIdR2 {
    type V = u16;

    closed spec fn view(&self) -> u16 {
        self.bits
    }
}

impl Register for PhyIdR2 {
    open spec fn spec_address() -> Address {
        Address::PhyIdR2
    }

    closed spec fn spec_from_bits(bits: u16) -> PhyIdR2 {
        PhyIdR2 { bits }
    }

    proof fn lemma_from_bits(bits: u16) {
    }

    fn address() -> (a: Address) {
        Address::PhyIdR2
    }

    fn from_bits(bits: u16) -> (r: PhyIdR2) {
        PhyIdR2 { bits }
    }

    fn to_bits(&self) -> (b: u16) {
        self.bits
    }
}

impl Default for PhyIdR2 {
    fn default() -> (r: PhyIdR2)
        ensures
            r@ == default_bits(Address::PhyIdR2),
    {
        PhyIdR2 { bits: 0x1430 }
    }
}

impl From<u16> for PhyIdR2 {
    fn from(bits: u16) -> (r: PhyIdR2) {
        PhyIdR2 { bits }
    }
}

impl vstd::std_specs::convert::FromSpecImpl<u16> for PhyIdR2 {
    open spec fn obeys_from_spec() -> bool {
        true
    }

    open spec fn from_spec(bits: u16) -> PhyIdR2 {
        <PhyIdR2 as Register>::spec_from_bits(bits)
    }
}

impl From<PhyIdR2> for u16 {
    fn from(r: PhyIdR2) -> (bits: u16) {
        r.bits
    }
}

impl vstd::std_specs::convert::FromSpecImpl<PhyIdR2> for u16 {
    open spec fn obeys_from_spec() -> bool {
        true
    }

    open spec fn from_spec(r: PhyIdR2) -> u16 {
        r@
    }
}

impl From<PhyIdR2> for State {
    fn from(r: PhyIdR2) -> (s: State) {
        State::PhyIdR2(r)
    }
}

impl vstd::std_specs::convert::FromSpecImpl<PhyIdR2> for State {
    open spec fn obeys_from_spec() -> bool {
        true
    }

    open spec fn from_spec(r: PhyIdR2) -> State {
        State::PhyIdR2(r)
    }
}

impl core::convert::TryFrom<State> for PhyIdR2 {
    type Error = InvalidAddress;

    fn try_from(s: State) -> (r: Result<PhyIdR2, InvalidAddress>) {
        match s {
            State::PhyIdR2(r) => Ok(r),
            _ => Err(InvalidAddress),
        }
    }
}

impl vstd::std_specs::convert::TryFromSpecImpl<State> for PhyIdR2 {
    open spec fn obeys_try_from_spec() -> bool {
        true
    }

    open spec fn try_from_spec(s: State) -> Result<PhyIdR2, InvalidAddress> {
        match s {
            State::PhyIdR2(r) => Ok(r),
            _ => Err(InvalidAddress),
        }
    }
}

impl PhyIdR2 {
    /// Provides read access to the individual fields of the register.
    pub fn read(&self) -> (r: R<PhyIdR2>)
        ensures
            r.0 == *self,
    {
        R(*self)
    }

    /// Provides write access to the individual fields of the register.
    pub fn write(self) -> (w: W<PhyIdR2>)
        ensures
            w.0 == self,
    {
        W(self)
    }
}

impl R<PhyIdR2> {
    /// Read access to the `phy_id_low` field.
    pub fn phy_id_low(&self) -> (f: BitsR<u16>)
        ensures
            f.bits == load16(self.0@, 0xffff, 0),
    {
        BitsR { bits: (self.0.bits & 0xffff) >> 0u16 }
    }
}

impl W<PhyIdR2> {
    /// Write access to the `phy_id_low` field.
    pub fn phy_id_low(self) -> (f: BitsW<PhyIdR2>)
        ensures
            f.w == self,
            f.mask == 0xffff,
            f.shift == 0,
    {
        BitsW { w: self, mask: 0xffff, shift: 0 }
    }
}

/// The `Anar` register, at address `0x04`.
#[derive(Clone, Copy, Debug, PartialEq, Eq, Structural, Hash)]
pub struct Anar {
    bits: u16,
}

impl View for Anar {
    type V = u16;

    closed spec fn view(&self) -> u16 {
        self.bits
    }
}

impl Register for Anar {
    open spec fn spec_address() -> Address {
        Address::Anar
    }

    closed spec fn spec_from_bits(bits: u16) -> Anar {
        Anar { bits }
    }

    proof fn lemma_from_bits(bits: u16) {
    }

    fn address() -> (a: Address) {
        Address::Anar
    }

    fn from_bits(bits: u16) -> (r: Anar) {
        Anar { bits }
    }

    fn to_bits(&self) -> (b: u16) {
        self.bits
    }
}

impl Default for Anar {
    fn default() -> (r: Anar)
        ensures
            r@ == default_bits(Address::Anar),
    {
        Anar { bits: 0x05e0 }
    }
}

impl From<u16> for Anar {
    fn from(bits: u16) -> (r: Anar) {
        Anar { bits }
    }
}

impl vstd::std_specs::convert::FromSpecImpl<u16> for Anar {
    open spec fn obeys_from_spec() -> bool {
        true
    }

    open spec fn from_spec(bits: u16) -> Anar {
        <Anar as Register>::spec_from_bits(bits)
    }
}

impl From<Anar> for u16 {
    fn from(r: Anar) -> (bits: u16) {
        r.bits
    }
}

impl vstd::std_specs::convert::FromSpecImpl<Anar> for u16 {
    open spec fn obeys_from_spec() -> bool {
        true
    }

    open spec fn from_spec(r: Anar) -> u16 {
        r@
    }
}

impl From<Anar> for State {
    fn from(r: Anar) -> (s: State) {
        State::Anar(r)
    }
}

impl vstd::std_specs::convert::FromSpecImpl<Anar> for State {
    open spec fn obeys_from_spec() -> bool {
        true
    }

    open spec fn from_spec(r: Anar) -> State {
        State::Anar(r)
    }
}

impl core::convert::TryFrom<State> for Anar {
    type Error = InvalidAddress;

    fn try_from(s: State) -> (r: Result<Anar, InvalidAddress>) {
        match s {
            State::Anar(r) => Ok(r),
            _ => Err(InvalidAddress),
        }
    }
}

impl vstd::std_specs::convert::TryFromSpecImpl<State> for Anar {
    open spec fn obeys_try_from_spec() -> bool {
        true
    }

    open spec fn try_from_spec(s: State) -> Result<Anar, InvalidAddress> {
        match s {
            State::Anar(r) => Ok(r),
            _ => Err(InvalidAddress),
        }
    }
}

impl Anar {
    /// Provides read access to the individual fields of the register.
    pub fn read(&self) -> (r: R<Anar>)
        ensures
            r.0 == *self,
    {
        R(*self)
    }

    /// Provides write access to the individual fields of the register.
    pub fn write(self) -> (w: W<Anar>)
        ensures
            w.0 == self,
    {
        W(self)
    }
}

impl R<Anar> {
    /// Read access to the `next_page` field.
    pub fn next_page(&self) -> (f: BitR)
        ensures
            f.bit == (self.0@ & 0x8000 != 0),
    {
        BitR { bit: self.0.bits & 0x8000 != 0 }
    }

    /// Read access to the `remote_fault` field.
    pub fn remote_fault(&self) -> (f: BitR)
        ensures
            f.bit == (self.0@ & 0x2000 != 0),
    {
        BitR { bit: self.0.bits & 0x2000 != 0 }
    }

    /// Read access to the `adv_pause` field.
    pub fn adv_pause(&self) -> (f: BitR)
        ensures
            f.bit == (self.0@ & 0x0400 != 0),
    {
        BitR { bit: self.0.bits & 0x0400 != 0 }
    }

    /// Read access to the `adv_100_fd` field.
    pub fn adv_100_fd(&self) -> (f: BitR)
        ensures
            f.bit == (self.0@ & 0x0100 != 0),
    {
        BitR { bit: self.0.bits & 0x0100 != 0 }
    }

    /// Read access to the `adv_100_hd` field.
    pub fn adv_100_hd(&self) -> (f: BitR)
        ensures
            f.bit == (self.0@ & 0x0080 != 0),
    {
        BitR { bit: self.0.bits & 0x0080 != 0 }
    }

    /// Read access to the `adv_10_fd` field.
    pub fn adv_10_fd(&self) -> (f: BitR)
        ensures
            f.bit == (self.0@ & 0x0040 != 0),
    {
        BitR { bit: self.0.bits & 0x0040 != 0 }
    }

    /// Read access to the `adv_10_hd` field.
    pub fn adv_10_hd(&self) -> (f: BitR)
        ensures
            f.bit == (self.0@ & 0x0020 != 0),
    {
        BitR { bit: self.0.bits & 0x0020 != 0 }
    }
}

impl W<Anar> {
    /// Write access to the `adv_pause` field.
    pub fn adv_pause(self) -> (f: BitW<Anar>)
        ensures
            f.w == self,
            f.mask == 0x0400,
    {
        BitW { w: self, mask: 0x0400 }
    }

    /// Write access to the `adv_100_fd` field.
    pub fn adv_100_fd(self) -> (f: BitW<Anar>)
        ensures
            f.w == self,
            f.mask == 0x0100,
    {
        BitW { w: self, mask: 0x0100 }
    }

    /// Write access to the `adv_100_hd` field.
    pub fn adv_100_hd(self) -> (f: BitW<Anar>)
        ensures
            f.w == self,
            f.mask == 0x0080,
    {
        BitW { w: self, mask: 0x0080 }
    }

    /// Write access to the `adv_10_fd` field.
    pub fn adv_10_fd(self) -> (f: BitW<Anar>)
        ensures
            f.w == self,
            f.mask == 0x0040,
    {
        BitW { w: self, mask: 0x0040 }
    }

    /// Write access to the `adv_10_hd` field.
    pub fn adv_10_hd(self) -> (f: BitW<Anar>)
        ensures
            f.w == self,
            f.mask == 0x0020,
    {
        BitW { w: self, mask: 0x0020 }
    }
}

/// The `Anlpar` register, at address `0x05`.
#[derive(Clone, Copy, Debug, PartialEq, Eq, Structural, Hash)]
pub struct Anlpar {
    bits: u16,
}

impl View for Anlpar {
    type V = u16;

    closed spec fn view(&self) -> u16 {
        self.bits
    }
}

impl Register for Anlpar {
    open spec fn spec_address() -> Address {
        Address::Anlpar
    }

    closed spec fn spec_from_bits(bits: u16) -> Anlpar {
        Anlpar { bits }
    }

    proof fn lemma_from_bits(bits: u16) {
    }

    fn address() -> (a: Address) {
        Address::Anlpar
    }

    fn from_bits(bits: u16) -> (r: Anlpar) {
        Anlpar { bits }
    }

    fn to_bits(&self) -> (b: u16) {
        self.bits
    }
}

impl Default for Anlpar {
    fn default() -> (r: Anlpar)
        ensures
            r@ == default_bits(Address::Anlpar),
    {
        Anlpar { bits: 0x0000 }
    }
}

impl From<u16> for Anlpar {
    fn from(bits: u16) -> (r: Anlpar) {
        Anlpar { bits }
    }
}

impl vstd::std_specs::convert::FromSpecImpl<u16> for Anlpar {
    open spec fn obeys_from_spec() -> bool {
        true
    }

    open spec fn from_spec(bits: u16) -> Anlpar {
        <Anlpar as Register>::spec_from_bits(bits)
    }
}

impl From<Anlpar> for u16 {
    fn from(r: Anlpar) -> (bits: u16) {
        r.bits
    }
}

impl vstd::std_specs::convert::FromSpecImpl<Anlpar> for u16 {
    open spec fn obeys_from_spec() -> bool {
        true
    }

    open spec fn from_spec(r: Anlpar) -> u16 {
        r@
    }
}

impl From<Anlpar> for State {
    fn from(r: Anlpar) -> (s: State) {
        State::Anlpar(r)
    }
}

impl vstd::std_specs::convert::FromSpecImpl<Anlpar> for State {
    open spec fn obeys_from_spec() -> bool {
        true
    }

    open spec fn from_spec(r: Anlpar) -> State {
        State::Anlpar(r)
    }
}

impl core::convert::TryFrom<State> for Anlpar {
    type Error = InvalidAddress;

    fn try_from(s: State) -> (r: Result<Anlpar, InvalidAddress>) {
        match s {
            State::Anlpar(r) => Ok(r),
            _ => Err(InvalidAddress),
        }
    }
}

impl vstd::std_specs::convert::TryFromSpecImpl<State> for Anlpar {
    open spec fn obeys_try_from_spec() -> bool {
        true
    }

    open spec fn try_from_spec(s: State) -> Result<Anlpar, InvalidAddress> {
        match s {
            State::Anlpar(r) => Ok(r),
            _ => Err(InvalidAddress),
        }
    }
}

impl Anlpar {
    /// Provides read access to the individual fields of the register.
    pub fn read(&self) -> (r: R<Anlpar>)
        ensures
            r.0 == *self,
    {
        R(*self)
    }

    /// Provides write access to the individual fields of the register.
    pub fn write(self) -> (w: W<Anlpar>)
        ensures
            w.0 == self,
    {
        W(self)
    }
}

impl R<Anlpar> {
    /// Read access to the `next_page` field.
    pub fn next_page(&self) -> (f: BitR)
        ensures
            f.bit == (self.0@ & 0x8000 != 0),
    {
        BitR { bit: self.0.bits & 0x8000 != 0 }
    }

    /// Read access to the `lp_pause` field.
    pub fn lp_pause(&self) -> (f: BitR)
        ensures
            f.bit == (self.0@ & 0x0400 != 0),
    {
        BitR { bit: self.0.bits & 0x0400 != 0 }
    }

    /// Read access to the `lp_100_fd` field.
    pub fn lp_100_fd(&self) -> (f: BitR)
        ensures
            f.bit == (self.0@ & 0x0100 != 0),
    {
        BitR { bit: self.0.bits & 0x0100 != 0 }
    }

    /// Read access to the `lp_100_hd` field.
    pub fn lp_100_hd(&self) -> (f: BitR)
        ensures
            f.bit == (self.0@ & 0x0080 != 0),
    {
        BitR { bit: self.0.bits & 0x0080 != 0 }
    }

    /// Read access to the `lp_10_fd` field.
    pub fn lp_10_fd(&self) -> (f: BitR)
        ensures
            f.bit == (self.0@ & 0x0040 != 0),
    {
        BitR { bit: self.0.bits & 0x0040 != 0 }
    }

    /// Read access to the `lp_10_hd` field.
    pub fn lp_10_hd(&self) -> (f: BitR)
        ensures
            f.bit == (self.0@ & 0x0020 != 0),
    {
        BitR { bit: self.0.bits & 0x0020 != 0 }
    }
}

/// The `LinkMd` register, at address `0x1d`.
#[derive(Clone, Copy, Debug, PartialEq, Eq, Structural, Hash)]
pub struct LinkMd {
    bits: u16,
}

impl View for LinkMd {
    type V = u16;

    closed spec fn view(&self) -> u16 {
        self.bits
    }
}

impl Register for LinkMd {
    open spec fn spec_address() -> Address {
        Address::LinkMd
    }

    closed spec fn spec_from_bits(bits: u16) -> LinkMd {
        LinkMd { bits }
    }

    proof fn lemma_from_bits(bits: u16) {
    }

    fn address() -> (a: Address) {
        Address::LinkMd
    }

    fn from_bits(bits: u16) -> (r: LinkMd) {
        LinkMd { bits }
    }

    fn to_bits(&self) -> (b: u16) {
        self.bits
    }
}

impl Default for LinkMd {
    fn default() -> (r: LinkMd)
        ensures
            r@ == default_bits(Address::LinkMd),
    {
        LinkMd { bits: 0x0000 }
    }
}

impl From<u16> for LinkMd {
    fn from(bits: u16) -> (r: LinkMd) {
        LinkMd { bits }
    }
}

impl vstd::std_specs::convert::FromSpecImpl<u16> for LinkMd {
    open spec fn obeys_from_spec() -> bool {
        true
    }

    open spec fn from_spec(bits: u16) -> LinkMd {
        <LinkMd as Register>::spec_from_bits(bits)
    }
}

impl From<LinkMd> for u16 {
    fn from(r: LinkMd) -> (bits: u16) {
        r.bits
    }
}

impl vstd::std_specs::convert::FromSpecImpl<LinkMd> for u16 {
    open spec fn obeys_from_spec() -> bool {
        true
    }

    open spec fn from_spec(r: LinkMd) -> u16 {
        r@
    }
}

impl From<LinkMd> for State {
    fn from(r: LinkMd) -> (s: State) {
        State::LinkMd(r)
    }
}

impl vstd::std_specs::convert::FromSpecImpl<LinkMd> for State {
    open spec fn obeys_from_spec() -> bool {
        true
    }

    open spec fn from_spec(r: LinkMd) -> State {
        State::LinkMd(r)
    }
}

impl core::convert::TryFrom<State> for LinkMd {
    type Error = InvalidAddress;

    fn try_from(s: State) -> (r: Result<LinkMd, InvalidAddress>) {
        match s {
            State::LinkMd(r) => Ok(r),
            _ => Err(InvalidAddress),
        }
    }
}

impl vstd::std_specs::convert::TryFromSpecImpl<State> for LinkMd {
    open spec fn obeys_try_from_spec() -> bool {
        true
    }

    open spec fn try_from_spec(s: State) -> Result<LinkMd, InvalidAddress> {
        match s {
            State::LinkMd(r) => Ok(r),
            _ => Err(InvalidAddress),
        }
    }
}

impl LinkMd {
    /// Provides read access to the individual fields of the register.
    pub fn read(&self) -> (r: R<LinkMd>)
        ensures
            r.0 == *self,
    {
        R(*self)
    }

    /// Provides write access to the individual fields of the register.
    pub fn write(self) -> (w: W<LinkMd>)
        ensures
            w.0 == self,
    {
        W(self)
    }
}

impl R<LinkMd> {
    /// Read access to the `vct_enable` field.
    pub fn vct_enable(&self) -> (f: BitR)
        ensures
            f.bit == (self.0@ & 0x8000 != 0),
    {
        BitR { bit: self.0.bits & 0x8000 != 0 }
    }

    /// Read access to the `vct_result` field.
    pub fn vct_result(&self) -> (f: BitsR<u8>)
        ensures
            f.bits == load16(self.0@, 0x6000, 13) as u8,
    {
        BitsR { bits: ((self.0.bits & 0x6000) >> 13u16) as u8 }
    }

    /// Read access to the `vct_10m_short` field.
    pub fn vct_10m_short(&self) -> (f: BitR)
        ensures
            f.bit == (self.0@ & 0x1000 != 0),
    {
        BitR { bit: self.0.bits & 0x1000 != 0 }
    }

    /// Read access to the `vct_fault_count` field.
    pub fn vct_fault_count(&self) -> (f: BitsR<u16>)
        ensures
            f.bits == load16(self.0@, 0x01ff, 0),
    {
        BitsR { bits: (self.0.bits & 0x01ff) >> 0u16 }
    }
}

impl W<LinkMd> {
    /// Write access to the `vct_enable` field.
    pub fn vct_enable(self) -> (f: BitW<LinkMd>)
        ensures
            f.w == self,
            f.mask == 0x8000,
    {
        BitW { w: self, mask: 0x8000 }
    }
}

/// The `PhySpecial` register, at address `0x1f`.
#[derive(Clone, Copy, Debug, PartialEq, Eq, Structural, Hash)]
pub struct PhySpecial {
    bits: u16,
}

impl View for PhySpecial {
    type V = u16;

    closed spec fn view(&self) -> u16 {
        self.bits
    }
}

impl Register for PhySpecial {
    open spec fn spec_address() -> Address {
        Address::PhySpecial
    }

    closed spec fn spec_from_bits(bits: u16) -> PhySpecial {
        PhySpecial { bits }
    }

    proof fn lemma_from_bits(bits: u16) {
    }

    fn address() -> (a: Address) {
        Address::PhySpecial
    }

    fn from_bits(bits: u16) -> (r: PhySpecial) {
        PhySpecial { bits }
    }

    fn to_bits(&self) -> (b: u16) {
        self.bits
    }
}

impl Default for PhySpecial {
    fn default() -> (r: PhySpecial)
        ensures
            r@ == default_bits(Address::PhySpecial),
    {
        PhySpecial { bits: 0x0004 }
    }
}

impl From<u16> for PhySpecial {
    fn from(bits: u16) -> (r: PhySpecial) {
        PhySpecial { bits }
    }
}

impl vstd::std_specs::convert::FromSpecImpl<u16> for PhySpecial {
    open spec fn obeys_from_spec() -> bool {
        true
    }

    open spec fn from_spec(bits: u16) -> PhySpecial {
        <PhySpecial as Register>::spec_from_bits(bits)
    }
}

impl From<PhySpecial> for u16 {
    fn from(r: PhySpecial) -> (bits: u16) {
        r.bits
    }
}

impl vstd::std_specs::convert::FromSpecImpl<PhySpecial> for u16 {
    open spec fn obeys_from_spec() -> bool {
        true
    }

    open spec fn from_spec(r: PhySpecial) -> u16 {
        r@
    }
}

impl From<PhySpecial> for State {
    fn from(r: PhySpecial) -> (s: State) {
        State::PhySpecial(r)
    }
}

impl vstd::std_specs::convert::FromSpecImpl<PhySpecial> for State {
    open spec fn obeys_from_spec() -> bool {
        true
    }

    open spec fn from_spec(r: PhySpecial) -> State {
        State::PhySpecial(r)
    }
}

impl core::convert::TryFrom<State> for PhySpecial {
    type Error = InvalidAddress;

    fn try_from(s: State) -> (r: Result<PhySpecial, InvalidAddress>) {
        match s {
            State::PhySpecial(r) => Ok(r),
            _ => Err(InvalidAddress),
        }
    }
}

impl vstd::std_specs::convert::TryFromSpecImpl<State> for PhySpecial {
    open spec fn obeys_try_from_spec() -> bool {
        true
    }

    open spec fn try_from_spec(s: State) -> Result<PhySpecial, InvalidAddress> {
        match s {
            State::PhySpecial(r) => Ok(r),
            _ => Err(InvalidAddress),
        }
    }
}

impl PhySpecial {
    /// Provides read access to the individual fields of the register.
    pub fn read(&self) -> (r: R<PhySpecial>)
        ensures
            r.0 == *self,
    {
        R(*self)
    }

    /// Provides write access to the individual fields of the register.
    pub fn write(self) -> (w: W<PhySpecial>)
        ensures
            w.0 == self,
    {
        W(self)
    }
}

impl R<PhySpecial> {
    /// Read access to the `polarity_reversed` field.
    pub fn polarity_reversed(&self) -> (f: BitR)
        ensures
            f.bit == (self.0@ & 0x0020 != 0),
    {
        BitR { bit: self.0.bits & 0x0020 != 0 }
    }

    /// Read access to the `mdix_status` field.
    pub fn mdix_status(&self) -> (f: BitR)
        ensures
            f.bit == (self.0@ & 0x0010 != 0),
    {
        BitR { bit: self.0.bits & 0x0010 != 0 }
    }

    /// Read access to the `force_link` field.
    pub fn force_link(&self) -> (f: BitR)
        ensures
            f.bit == (self.0@ & 0x0008 != 0),
    {
        BitR { bit: self.0.bits & 0x0008 != 0 }
    }

    /// Read access to the `power_save` field.
    pub fn power_save(&self) -> (f: BitR)
        ensures
            f.bit == (self.0@ & 0x0004 != 0),
    {
        BitR { bit: self.0.bits & 0x0004 != 0 }
    }

    /// Read access to the `remote_loopback` field.
    pub fn remote_loopback(&self) -> (f: BitR)
        ensures
            f.bit == (self.0@ & 0x0002 != 0),
    {
        BitR { bit: self.0.bits & 0x0002 != 0 }
    }
}

impl W<PhySpecial> {
    /// Write access to the `force_link` field.
    pub fn force_link(self) -> (f: BitW<PhySpecial>)
        ensures
            f.w == self,
            f.mask == 0x0008,
    {
        BitW { w: self, mask: 0x0008 }
    }

    /// Write access to the `power_save` field.
    pub fn power_save(self) -> (f: BitW<PhySpecial>)
        ensures
            f.w == self,
            f.mask == 0x0004,
    {
        BitW { w: self, mask: 0x0004 }
    }

    /// Write access to the `remote_loopback` field.
    pub fn remote_loopback(self) -> (f: BitW<PhySpecial>)
        ensures
            f.w == self,
            f.mask == 0x0002,
    {
        BitW { w: self, mask: 0x0002 }
    }
}

impl<'miim, T> Phy<'miim, T> {
    /// Access the `Bcr` register of this PHY.
    pub fn bcr<'phy>(&'phy mut self) -> (r: PhyReg<'phy, 'miim, T, Bcr>)
        ensures
            *r.phy == *old(self),
            *final(self) == *final(r.phy),
    {
        self.reg::<Bcr>()
    }

    /// Access the `Bsr` register of this PHY.
    pub fn bsr<'phy>(&'phy mut self) -> (r: PhyReg<'phy, 'miim, T, Bsr>)
        ensures
            *r.phy == *old(self),
            *final(self) == *final(r.phy),
    {
        self.reg::<Bsr>()
    }

    /// Access the `PhyIdR1` register of this PHY.
    pub fn phyidr1<'phy>(&'phy mut self) -> (r: PhyReg<'phy, 'miim, T, PhyIdR1>)
        ensures
            *r.phy == *old(self),
            *final(self) == *final(r.phy),
    {
        self.reg::<PhyIdR1>()
    }

    /// Access the `PhyIdR2` register of this PHY.
    pub fn phyidr2<'phy>(&'phy mut self) -> (r: PhyReg<'phy, 'miim, T, PhyIdR2>)
        ensures
            *r.phy == *old(self),
            *final(self) == *final(r.phy),
    {
        self.reg::<PhyIdR2>()
    }

    /// Access the `Anar` register of this PHY.
    pub fn anar<'phy>(&'phy mut self) -> (r: PhyReg<'phy, 'miim, T, Anar>)
        ensures
            *r.phy == *old(self),
            *final(self) == *final(r.phy),
    {
        self.reg::<Anar>()
    }

    /// Access the `Anlpar` register of this PHY.
    pub fn anlpar<'phy>(&'phy mut self) -> (r: PhyReg<'phy, 'miim, T, Anlpar>)
        ensures
            *r.phy == *old(self),
            *final(self) == *final(r.phy),
    {
        self.reg::<Anlpar>()
    }

    /// Access the `LinkMd` register of this PHY.
    pub fn link_md<'phy>(&'phy mut self) -> (r: PhyReg<'phy, 'miim, T, LinkMd>)
        ensures
            *r.phy == *old(self),
            *final(self) == *final(r.phy),
    {
        self.reg::<LinkMd>()
    }

    /// Access the `PhySpecial` register of this PHY.
    pub fn phy_special<'phy>(&'phy mut self) -> (r: PhyReg<'phy, 'miim, T, PhySpecial>)
        ensures
            *r.phy == *old(self),
            *final(self) == *final(r.phy),
    {
        self.reg::<PhySpecial>()
    }
}

} // verus!

//! The security information (`SecInfo`) attached to an enclave page when it
//! is added to an enclave, and its two parts: the page `Flags` and the page
//! `Class`.

use vstd::prelude::*;

verus! {

/// The bits that a page's `Flags` may hold: bits 0 to 5.
pub const FLAGS_MASK: u8 = 0x3f;

/// Whether bit `i` of `b` is set.
pub open spec fn bit_set(b: u8, i: u8) -> bool
    recommends
        i < 8,
{
    (b >> i) & 1 == 1
}

proof fn lemma_union_in_mask(a: u8, b: u8)
    requires
        a <= FLAGS_MASK,
        b <= FLAGS_MASK,
    ensures
        a | b <= FLAGS_MASK,
{
    assert(a | b <= 0x3f) by (bit_vector)
        requires
            a <= 0x3f,
            b <= 0x3f,
    ;
}

proof fn lemma_intersection_in_mask(a: u8, b: u8)
    requires
        a <= FLAGS_MASK,
    ensures
        a & b <= FLAGS_MASK,
{
    assert(a & b <= a) by (bit_vector);
}

/// The `Flags` of a page: a set of access rights and page states, held in
/// one byte. Only the six bits of `FLAGS_MASK` can ever be set.
#[derive(Copy, Clone, Debug, PartialEq, Eq, Hash, Structural)]
pub struct Flags {
    bits: u8,
}

impl View for Flags {
    type V = u8;

    closed spec fn view(&self) -> u8 {
        self.bits
    }
}

impl Flags {
    #[verifier::type_invariant]
    spec fn inv(self) -> bool {
        self.bits <= FLAGS_MASK
    }

    /// The page can be read from inside the enclave (bit 0).
    pub fn r() -> (f: Flags)
        ensures
            f@ == 1,
    {
        Flags { bits: 1 }
    }

    /// The page can be written from inside the enclave (bit 1).
    pub fn w() -> (f: Flags)
        ensures
            f@ == 2,
    {
        Flags { bits: 2 }
    }

    /// The page can be executed from inside the enclave (bit 2).
    pub fn x() -> (f: Flags)
        ensures
            f@ == 4,
    {
        Flags { bits: 4 }
    }

    /// The page is in the PENDING state (bit 3).
    pub fn pending() -> (f: Flags)
        ensures
            f@ == 8,
    {
        Flags { bits: 8 }
    }

    /// The page is in the MODIFIED state (bit 4).
    pub fn modified() -> (f: Flags)
        ensures
            f@ == 16,
    {
        Flags { bits: 16 }
    }

    /// A permission restriction operation on the page is in progress (bit 5).
    pub fn pr() -> (f: Flags)
        ensures
            f@ == 32,
    {
        Flags { bits: 32 }
    }

    /// No flag set.
    pub fn empty() -> (f: Flags)
        ensures
            f@ == 0,
    {
        Flags { bits: 0 }
    }

    /// Every flag set.
    pub fn all() -> (f: Flags)
        ensures
            f@ == FLAGS_MASK,
    {
        Flags { bits: FLAGS_MASK }
    }

    /// The byte that holds these flags.
    pub fn bits(&self) -> (b: u8)
        ensures
            b == self@,
            b <= FLAGS_MASK,
    {
        proof {
            use_type_invariant(self);
        }
        self.bits
    }

    /// The flags that `b` holds, or `None` where `b` sets a bit outside
    /// `FLAGS_MASK`.
    pub fn from_bits(b: u8) -> (r: Option<Flags>)
        ensures
            r is Some <==> b <= FLAGS_MASK,
            r matches Some(f) ==> f@ == b,
    {
        if b <= FLAGS_MASK {
            Some(Flags { bits: b })
        } else {
            None
        }
    }

    /// The flags set in `self`, in `other`, or in both.
    pub fn union(self, other: Flags) -> (r: Flags)
        ensures
            r@ == self@ | other@,
    {
        proof {
            use_type_invariant(&self);
            use_type_invariant(&other);
            lemma_union_in_mask(self.bits, other.bits);
        }
        Flags { bits: self.bits | other.bits }
    }

    /// The flags set in both `self` and `other`.
    pub fn intersection(self, other: Flags) -> (r: Flags)
        ensures
            r@ == self@ & other@,
    {
        proof {
            use_type_invariant(&self);
            lemma_intersection_in_mask(self.bits, other.bits);
        }
        Flags { bits: self.bits & other.bits }
    }

    /// Whether every flag set in `other` is set in `self`.
    pub fn contains(&self, other: Flags) -> (r: bool)
        ensures
            r == (self@ & other@ == other@),
    {
        self.bits & other.bits == other.bits
    }

    /// Whether no flag is set.
    pub fn is_empty(&self) -> (r: bool)
        ensures
            r == (self@ == 0),
    {
        self.bits == 0
    }
}

/// The `Class` of a page (the `PAGE_TYPE` structure).
///
/// Each variant stands for a fixed tag of the hardware's wire format, given
/// by `Class::tag`.
#[derive(Copy, Clone, Debug, PartialEq, Eq, Structural)]
pub enum Class {
    /// Page is an SECS.
    Secs,
    /// Page is a TCS.
    Tcs,
    /// Page is a regular page.
    Reg,
    /// Page is a Version Array.
    Va,
    /// Page is in trimmed state.
    Trim,
}

/// The tag that the hardware gives each page class.
pub open spec fn class_tag(c: Class) -> u8 {
    match c {
        Class::Secs => 0,
        Class::Tcs => 1,
        Class::Reg => 2,
        Class::Va => 3,
        Class::Trim => 4,
    }
}

impl Class {
    /// The tag of this class in the hardware's encoding.
    pub fn tag(&self) -> (r: u8)
        ensures
            r == class_tag(*self),
    {
        match self {
            Class::Secs => 0,
            Class::Tcs => 1,
            Class::Reg => 2,
            Class::Va => 3,
            Class::Trim => 4,
        }
    }
}

/// The class whose tag is `t`, if any.
pub open spec fn class_of_tag(t: u8) -> Option<Class> {
    if t == 0 {
        Some(Class::Secs)
    } else if t == 1 {
        Some(Class::Tcs)
    } else if t == 2 {
        Some(Class::Reg)
    } else if t == 3 {
        Some(Class::Va)
    } else if t == 4 {
        Some(Class::Trim)
    } else {
        None
    }
}

impl Class {
    /// The class whose tag is `t`, checked: only the five tags of the
    /// hardware's encoding give a class.
    fn from_tag(t: u8) -> (r: Option<Class>)
        ensures
            r == class_of_tag(t),
    {
        match t {
            0 => Some(Class::Secs),
            1 => Some(Class::Tcs),
            2 => Some(Class::Reg),
            3 => Some(Class::Va),
            4 => Some(Class::Trim),
            _ => None,
        }
    }
}

/// Why 64 bytes are not the wire form of a `SecInfo`.
#[derive(Copy, Clone, Debug, PartialEq, Eq, Structural)]
pub enum DecodeError {
    /// The flags byte sets a bit outside `FLAGS_MASK`.
    UndefinedFlags,
    /// The class byte is not the tag of any `Class`.
    UnknownClass,
    /// A byte of the reserved region is not zero.
    NonzeroReserved,
}

/// The size in bytes of a `SecInfo`'s wire form.
pub const SECINFO_SIZE: usize = 64;

/// The size in bytes of the reserved region that follows the flags and the
/// class.
pub const RESERVED_SIZE: usize = 62;

/// `n` zero bytes.
pub open spec fn zero_bytes(n: nat) -> Seq<u8> {
    Seq::new(n, |i: int| 0u8)
}

/// The wire form of a descriptor whose flags byte is `v.0` and whose class
/// is `v.1`: the flags, the class tag, then 62 zero bytes.
pub open spec fn wire_bytes(v: (u8, Class)) -> Seq<u8> {
    seq![v.0, class_tag(v.1)] + zero_bytes(RESERVED_SIZE as nat)
}

/// What 64 wire bytes stand for: the flags byte and the class, or the first
/// reason why they stand for no descriptor.
pub open spec fn decode(b: Seq<u8>) -> Result<(u8, Class), DecodeError>
    recommends
        b.len() == SECINFO_SIZE,
{
    if b[0] > FLAGS_MASK {
        Err(DecodeError::UndefinedFlags)
    } else if class_of_tag(b[1]) is None {
        Err(DecodeError::UnknownClass)
    } else if b.subrange(2, SECINFO_SIZE as int) != zero_bytes(RESERVED_SIZE as nat) {
        Err(DecodeError::NonzeroReserved)
    } else {
        Ok((b[0], class_of_tag(b[1])->Some_0))
    }
}

/// The security information (`SecInfo`) about a page.
///
/// Its wire form is 64 bytes: the flags at offset 0, the class tag at offset
/// 1, and 62 reserved bytes, which are always zero. The `FLAGS` field of the
/// hardware's structure is here divided into `flags` and `class`.
///
/// The view of a `SecInfo` is the pair of its flags byte and its class.
#[derive(Copy, Clone, Debug)]
pub struct SecInfo {
    flags: Flags,
    class: Class,
    reserved: [u8; RESERVED_SIZE],
}

impl View for SecInfo {
    type V = (u8, Class);

    closed spec fn view(&self) -> (u8, Class) {
        (self.flags@, self.class)
    }
}

impl SecInfo {
    #[verifier::type_invariant]
    spec fn inv(self) -> bool {
        self.reserved@ == zero_bytes(RESERVED_SIZE as nat)
    }

    /// Creates a SecInfo for a regular page with the given flags.
    ///
    /// The flags are taken as given, the page-state bits included: those are
    /// the hardware's to set, and a descriptor that holds them is refused by
    /// the hardware, not here.
    pub fn reg(flags: Flags) -> (s: SecInfo)
        ensures
            s@ == (flags@, Class::Reg),
    {
        let reserved = [0u8; RESERVED_SIZE];
        assert(reserved@ =~= zero_bytes(RESERVED_SIZE as nat));
        SecInfo { flags, class: Class::Reg, reserved }
    }

    /// Creates a SecInfo for a thread control page: no flags.
    pub fn tcs() -> (s: SecInfo)
        ensures
            s@ == (0u8, Class::Tcs),
    {
        let reserved = [0u8; RESERVED_SIZE];
        assert(reserved@ =~= zero_bytes(RESERVED_SIZE as nat));
        SecInfo { flags: Flags::empty(), class: Class::Tcs, reserved }
    }

    /// The page's flags.
    pub fn flags(&self) -> (f: Flags)
        ensures
            f@ == self@.0,
    {
        self.flags
    }

    /// The page's class.
    pub fn class(&self) -> (c: Class)
        ensures
            c == self@.1,
    {
        self.class
    }

    /// The 64 bytes of the wire form, as the hardware reads them.
    pub fn to_bytes(&self) -> (b: [u8; SECINFO_SIZE])
        ensures
            b@ == wire_bytes(self@),
            self@.0 <= FLAGS_MASK,
    {
        proof {
            use_type_invariant(self);
        }
        let mut b = [0u8; SECINFO_SIZE];
        b[0] = self.flags.bits();
        b[1] = self.class.tag();
        let mut i: usize = 0;
        while i < RESERVED_SIZE
            invariant
                i <= RESERVED_SIZE,
                self.reserved@ == zero_bytes(RESERVED_SIZE as nat),
                b@.len() == SECINFO_SIZE,
                b@[0] == self@.0,
                b@[1] == class_tag(self@.1),
                forall|j: int| 2 <= j < SECINFO_SIZE ==> b@[j] == 0,
            decreases RESERVED_SIZE - i,
        {
            b[i + 2] = self.reserved[i];
            i = i + 1;
        }
        assert(b@ =~= wire_bytes(self@));
        b
    }

    /// The descriptor whose wire form is `b`, checked: the flags byte must
    /// set no bit outside `FLAGS_MASK`, the class byte must be the tag of a
    /// `Class`, and the reserved region must be zero.
    pub fn from_bytes(b: &[u8; SECINFO_SIZE]) -> (r: Result<SecInfo, DecodeError>)
        ensures
            match decode(b@) {
                Ok(v) => r matches Ok(s) && s@ == v,
                Err(e) => r == Err::<SecInfo, DecodeError>(e),
            },
    {
        let flags = match Flags::from_bits(b[0]) {
            Some(f) => f,
            None => return Err(DecodeError::UndefinedFlags),
        };
        let class = match Class::from_tag(b[1]) {
            Some(c) => c,
            None => return Err(DecodeError::UnknownClass),
        };
        let mut i: usize = 2;
        while i < SECINFO_SIZE
            invariant
                2 <= i <= SECINFO_SIZE,
                b@[0] <= FLAGS_MASK,
                class_of_tag(b@[1]) == Some(class),
                flags@ == b@[0],
                forall|j: int| 2 <= j < i ==> b@[j] == 0,
            decreases SECINFO_SIZE - i,
        {
            if b[i] != 0 {
                assert(b@.subrange(2, SECINFO_SIZE as int)[i - 2] != zero_bytes(
                    RESERVED_SIZE as nat,
                )[i - 2]);
                return Err(DecodeError::NonzeroReserved);
            }
            i = i + 1;
        }
        assert(b@.subrange(2, SECINFO_SIZE as int) =~= zero_bytes(RESERVED_SIZE as nat));
        let reserved = [0u8; RESERVED_SIZE];
        assert(reserved@ =~= zero_bytes(RESERVED_SIZE as nat));
        Ok(SecInfo { flags, class, reserved })
    }
}

/// Read, write and execute together set exactly bits 0, 1 and 2.
pub proof fn lemma_permissions_bits(r: Flags, w: Flags, x: Flags)
    requires
        r@ == 1,
        w@ == 2,
        x@ == 4,
    ensures
        r@ | w@ | x@ == 7,
        forall|i: u8| i < 8 ==> (bit_set(r@ | w@ | x@, i) <==> i < 3),
{
    assert(1u8 | 2u8 | 4u8 == 7u8) by (bit_vector);
    assert forall|i: u8| i < 8 implies (bit_set(7u8, i) <==> i < 3) by {
        assert(i < 8 ==> (((7u8 >> i) & 1u8 == 1u8) <==> i < 3)) by (bit_vector);
    }
}

/// Union is commutative.
pub proof fn lemma_union_commutative(a: Flags, b: Flags)
    ensures
        a@ | b@ == b@ | a@,
{
    let (x, y) = (a@, b@);
    assert(x | y == y | x) by (bit_vector);
}

/// Union is idempotent.
pub proof fn lemma_union_idempotent(a: Flags)
    ensures
        a@ | a@ == a@,
{
    let x = a@;
    assert(x | x == x) by (bit_vector);
}

/// The intersection of any flags with no flags is empty.
pub proof fn lemma_intersection_with_empty(a: Flags, e: Flags)
    requires
        e@ == 0,
    ensures
        a@ & e@ == 0,
{
    let x = a@;
    assert(x & 0u8 == 0u8) by (bit_vector);
}

/// Decoding the wire form of a descriptor gives back its flags and its
/// class.
pub proof fn lemma_wire_round_trip(v: (u8, Class))
    requires
        v.0 <= FLAGS_MASK,
    ensures
        decode(wire_bytes(v)) == Ok::<(u8, Class), DecodeError>(v),
{
    let b = wire_bytes(v);
    assert(b.subrange(2, SECINFO_SIZE as int) =~= zero_bytes(RESERVED_SIZE as nat));
    assert(class_of_tag(class_tag(v.1)) == Some(v.1));
}

} // verus!

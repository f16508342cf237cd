//! Access permissions of a memory area, as a set of bits.
use vstd::prelude::*;
use crate::error::Error;

verus! {

/// The bit of read permission.
pub const READ_BIT: u32 = 0x1;
/// The bit of write permission.
pub const WRITE_BIT: u32 = 0x2;
/// The bit of execute permission.
pub const EXEC_BIT: u32 = 0x4;
/// All the bits that a `VMPerms` can hold.
pub const ALL_BITS: u32 = 0x7;

/// Read, write and execute permissions of a memory area.
#[derive(Clone, Copy, Debug, PartialEq, Eq, Structural)]
pub struct VMPerms {
    bits: u32,
}

#[allow(non_snake_case)]
impl VMPerms {
    /// Read permission.
    pub fn Read() -> (r: VMPerms)
        ensures
            r@ == READ_BIT,
    {
        proof {
            lemma_all_permits_everything();
        }
        VMPerms { bits: READ_BIT }
    }

    /// Write permission.
    pub fn Write() -> (r: VMPerms)
        ensures
            r@ == WRITE_BIT,
    {
        proof {
            lemma_all_permits_everything();
        }
        VMPerms { bits: WRITE_BIT }
    }

    /// Execute permission.
    pub fn Exec() -> (r: VMPerms)
        ensures
            r@ == EXEC_BIT,
    {
        proof {
            lemma_all_permits_everything();
        }
        VMPerms { bits: EXEC_BIT }
    }

    /// All three permissions.
    pub fn All() -> (r: VMPerms)
        ensures
            r@ == ALL_BITS,
    {
        proof {
            lemma_all_permits_everything();
        }
        VMPerms { bits: ALL_BITS }
    }
}

impl View for VMPerms {
    type V = u32;

    closed spec fn view(&self) -> u32 {
        self.bits
    }
}

/// The permissions that `bits` grants.
pub open spec fn spec_can_read(bits: u32) -> bool {
    bits & READ_BIT != 0
}

pub open spec fn spec_can_write(bits: u32) -> bool {
    bits & WRITE_BIT != 0
}

pub open spec fn spec_can_execute(bits: u32) -> bool {
    bits & EXEC_BIT != 0
}

impl VMPerms {
    /// A permission value holds only supported bits.
    #[verifier::type_invariant]
    closed spec fn only_supported_bits(&self) -> bool {
        self.bits & !ALL_BITS == 0
    }

    /// The bits of these permissions.
    pub fn bits(&self) -> (r: u32)
        ensures
            r == self@,
            r & !ALL_BITS == 0,
    {
        proof {
            use_type_invariant(self);
        }
        self.bits
    }

    /// The permissions whose bits are those of `bits` that are supported;
    /// the others are dropped.
    pub fn from_bits_truncate(bits: u32) -> (r: VMPerms)
        ensures
            r@ == bits & ALL_BITS,
    {
        proof {
            lemma_truncate_keeps_permissions(bits);
        }
        VMPerms { bits: bits & ALL_BITS }
    }

    /// The permissions that `bits` asks for. Bits that name no permission
    /// are dropped, and the call still succeeds.
    pub fn from_u32(bits: u32) -> (r: Result<VMPerms, Error>)
        ensures
            r matches Ok(p) && p@ == bits & ALL_BITS,
    {
        Ok(VMPerms::from_bits_truncate(bits))
    }

    /// The bits of `bits` that name no permission, which `from_u32` drops.
    pub fn unsupported_bits(bits: u32) -> (r: u32)
        ensures
            r == bits & !ALL_BITS,
    {
        bits & !ALL_BITS
    }

    /// Whether these permissions hold all those of `other`.
    pub fn contains(&self, other: VMPerms) -> (r: bool)
        ensures
            r == (self@ & other@ == other@),
    {
        self.bits & other.bits == other.bits
    }

    /// Whether reading is permitted.
    pub fn can_read(&self) -> (r: bool)
        ensures
            r == spec_can_read(self@),
            r == (self@ & READ_BIT == READ_BIT),
    {
        let b = self.bits;
        let r = self.contains(VMPerms::Read());
        assert(r == (b & 1u32 == 1u32) ==> r == (b & 1u32 != 0)) by (bit_vector);
        r
    }

    /// Whether writing is permitted.
    pub fn can_write(&self) -> (r: bool)
        ensures
            r == spec_can_write(self@),
            r == (self@ & WRITE_BIT == WRITE_BIT),
    {
        let b = self.bits;
        let r = self.contains(VMPerms::Write());
        assert(r == (b & 2u32 == 2u32) ==> r == (b & 2u32 != 0)) by (bit_vector);
        r
    }

    /// Whether executing is permitted.
    pub fn can_execute(&self) -> (r: bool)
        ensures
            r == spec_can_execute(self@),
            r == (self@ & EXEC_BIT == EXEC_BIT),
    {
        let b = self.bits;
        let r = self.contains(VMPerms::Exec());
        assert(r == (b & 4u32 == 4u32) ==> r == (b & 4u32 != 0)) by (bit_vector);
        r
    }
}

/// Dropping the unsupported bits keeps every permission that `bits` names
/// and leaves only supported bits; bits that are all supported are kept as
/// they are.
pub proof fn lemma_truncate_keeps_permissions(bits: u32)
    by (bit_vector)
    ensures
        spec_can_read(bits & ALL_BITS) == spec_can_read(bits),
        spec_can_write(bits & ALL_BITS) == spec_can_write(bits),
        spec_can_execute(bits & ALL_BITS) == spec_can_execute(bits),
        (bits & ALL_BITS) & !ALL_BITS == 0,
        bits & !ALL_BITS == 0 ==> bits & ALL_BITS == bits,
{
}

/// Each permission is read off its own bit, as `contains` of that single
/// permission reads it, and no other bit bears on it: the permission holds
/// of `bits` exactly when it holds of that bit alone.
pub proof fn lemma_permission_is_its_bit(bits: u32)
    by (bit_vector)
    ensures
        spec_can_read(bits) == (bits & READ_BIT == READ_BIT),
        spec_can_write(bits) == (bits & WRITE_BIT == WRITE_BIT),
        spec_can_execute(bits) == (bits & EXEC_BIT == EXEC_BIT),
        spec_can_read(bits) == spec_can_read(bits & READ_BIT),
        spec_can_write(bits) == spec_can_write(bits & WRITE_BIT),
        spec_can_execute(bits) == spec_can_execute(bits & EXEC_BIT),
        bits & EXEC_BIT == 0 ==> !spec_can_execute(bits),
        bits & WRITE_BIT == 0 ==> !spec_can_write(bits),
        bits & READ_BIT == 0 ==> !spec_can_read(bits),
{
}

/// All permissions permit reading, writing and executing, and each of the
/// three bits is a supported one.
pub proof fn lemma_all_permits_everything()
    by (bit_vector)
    ensures
        spec_can_read(ALL_BITS),
        spec_can_write(ALL_BITS),
        spec_can_execute(ALL_BITS),
        READ_BIT & !ALL_BITS == 0,
        WRITE_BIT & !ALL_BITS == 0,
        EXEC_BIT & !ALL_BITS == 0,
        ALL_BITS & !ALL_BITS == 0,
{
}

impl Default for VMPerms {
    /// All permissions.
    fn default() -> (r: VMPerms)
        ensures
            r@ == ALL_BITS,
    {
        VMPerms::All()
    }
}

} // verus!

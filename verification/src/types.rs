//! The small vocabulary of the file service: file identities, states, modes and permissions.

use vstd::prelude::*;
use vstd::string::*;

verus! {

/// Whether a file still takes appends.
#[derive(Clone, Copy, Debug, PartialEq, Eq, Structural)]
pub enum FileState {
    Open,
    Sealed,
}

impl FileState {
    /// The name under which the service reports the state.
    pub open spec fn name(self) -> Seq<char> {
        match self {
            FileState::Open => "OPEN"@,
            FileState::Sealed => "SEALED"@,
        }
    }

    /// The name under which the service reports the state.
    pub fn to_string(&self) -> (text: String)
        ensures
            text@ == self.name(),
    {
        match self {
            FileState::Open => String::from_str("OPEN"),
            FileState::Sealed => String::from_str("SEALED"),
        }
    }
}

/// Whether a file can be destroyed once it stands.
#[derive(Clone, Copy, Debug, PartialEq, Eq, Structural)]
pub enum FileMode {
    Destroyable,
    Immutable,
}

impl FileMode {
    /// The name under which the service reports the mode.
    pub open spec fn name(self) -> Seq<char> {
        match self {
            FileMode::Destroyable => "DESTROYABLE"@,
            FileMode::Immutable => "IMMUTABLE"@,
        }
    }

    /// The number that stands for the mode in a payload.
    pub open spec fn wire_number(self) -> u64 {
        match self {
            FileMode::Destroyable => 0,
            FileMode::Immutable => 1,
        }
    }

    /// The mode that a number stands for in a payload.
    pub open spec fn of_wire_number(n: u64) -> Option<FileMode> {
        if n == 0 {
            Some(FileMode::Destroyable)
        } else if n == 1 {
            Some(FileMode::Immutable)
        } else {
            None
        }
    }

    /// The name under which the service reports the mode.
    pub fn to_string(&self) -> (text: String)
        ensures
            text@ == self.name(),
    {
        match self {
            FileMode::Destroyable => String::from_str("DESTROYABLE"),
            FileMode::Immutable => String::from_str("IMMUTABLE"),
        }
    }

    /// The number that stands for the mode in a payload.
    pub fn to_wire(&self) -> (n: u64)
        ensures
            n == self.wire_number(),
            FileMode::of_wire_number(n) == Some(*self),
    {
        match self {
            FileMode::Destroyable => 0,
            FileMode::Immutable => 1,
        }
    }

    /// The mode that a number stands for in a payload.
    pub fn from_wire(n: u64) -> (mode: Option<FileMode>)
        ensures
            mode == FileMode::of_wire_number(n),
    {
        if n == 0 {
            Some(FileMode::Destroyable)
        } else if n == 1 {
            Some(FileMode::Immutable)
        } else {
            None
        }
    }
}

/// What a key may be allowed to do.
#[derive(Clone, Copy, Debug, PartialEq, Eq, Structural)]
pub enum Permission {
    Unset,
    SetPermission,
    Batcher,
    Deposit,
    Timestamp,
}

impl Permission {
    /// The number that stands for the permission in a payload.
    pub open spec fn wire_number(self) -> u64 {
        match self {
            Permission::Unset => 0,
            Permission::SetPermission => 1,
            Permission::Batcher => 2,
            Permission::Deposit => 3,
            Permission::Timestamp => 4,
        }
    }

    /// The permission that a number stands for in a payload.
    pub open spec fn of_wire_number(n: u64) -> Option<Permission> {
        if n == 0 {
            Some(Permission::Unset)
        } else if n == 1 {
            Some(Permission::SetPermission)
        } else if n == 2 {
            Some(Permission::Batcher)
        } else if n == 3 {
            Some(Permission::Deposit)
        } else if n == 4 {
            Some(Permission::Timestamp)
        } else {
            None
        }
    }

    /// The two hexadecimal digits of the permission's number.
    pub open spec fn hex(self) -> Seq<char> {
        match self {
            Permission::Unset => "00"@,
            Permission::SetPermission => "01"@,
            Permission::Batcher => "02"@,
            Permission::Deposit => "03"@,
            Permission::Timestamp => "04"@,
        }
    }

    /// The name of the permission.
    pub open spec fn name(self) -> Seq<char> {
        match self {
            Permission::Unset => "Permission::Unset"@,
            Permission::SetPermission => "Permission::SetPermission"@,
            Permission::Batcher => "Permission::Batcher"@,
            Permission::Deposit => "Permission::Deposit"@,
            Permission::Timestamp => "Permission::Timestamp"@,
        }
    }

    /// The two hexadecimal digits of the permission's number.
    pub fn to_hex(&self) -> (text: String)
        ensures
            text@ == self.hex(),
    {
        match self {
            Permission::Unset => String::from_str("00"),
            Permission::SetPermission => String::from_str("01"),
            Permission::Batcher => String::from_str("02"),
            Permission::Deposit => String::from_str("03"),
            Permission::Timestamp => String::from_str("04"),
        }
    }

    /// The name of the permission.
    pub fn to_string(&self) -> (text: String)
        ensures
            text@ == self.name(),
    {
        match self {
            Permission::Unset => String::from_str("Permission::Unset"),
            Permission::SetPermission => String::from_str("Permission::SetPermission"),
            Permission::Batcher => String::from_str("Permission::Batcher"),
            Permission::Deposit => String::from_str("Permission::Deposit"),
            Permission::Timestamp => String::from_str("Permission::Timestamp"),
        }
    }

    /// The number that stands for the permission in a payload.
    pub fn to_wire(&self) -> (n: u64)
        ensures
            n == self.wire_number(),
            Permission::of_wire_number(n) == Some(*self),
    {
        match self {
            Permission::Unset => 0,
            Permission::SetPermission => 1,
            Permission::Batcher => 2,
            Permission::Deposit => 3,
            Permission::Timestamp => 4,
        }
    }

    /// The permission that a number stands for in a payload.
    pub fn from_wire(n: u64) -> (permission: Option<Permission>)
        ensures
            permission == Permission::of_wire_number(n),
    {
        if n == 0 {
            Some(Permission::Unset)
        } else if n == 1 {
            Some(Permission::SetPermission)
        } else if n == 2 {
            Some(Permission::Batcher)
        } else if n == 3 {
            Some(Permission::Deposit)
        } else if n == 4 {
            Some(Permission::Timestamp)
        } else {
            None
        }
    }
}

/// The digits of `v` in base 256, most significant first, in `count` bytes.
pub open spec fn be_bytes(v: nat, count: nat) -> Seq<u8>
    decreases count,
{
    if count == 0 {
        Seq::empty()
    } else {
        be_bytes(v / 256, (count - 1) as nat).push((v % 256) as u8)
    }
}

/// The identity of a file: 128 bits, minted once for each upload.
#[derive(Clone, Copy, Debug, PartialEq, Eq, Structural)]
pub struct FileId {
    pub value: u128,
}

impl FileId {
    /// The sixteen bytes of the identity, most significant first.
    pub open spec fn bytes(self) -> Seq<u8> {
        be_bytes(self.value as nat, 16)
    }

    /// The identity with the given value.
    pub fn from_u128(value: u128) -> (id: FileId)
        ensures
            id.value == value,
    {
        FileId { value }
    }

    /// The value of the identity.
    pub fn as_u128(&self) -> (value: u128)
        ensures
            value == self.value,
    {
        self.value
    }

    /// The sixteen bytes of the identity, most significant first.
    pub fn as_bytes(&self) -> (bytes: Vec<u8>)
        ensures
            bytes@ == self.bytes(),
            bytes@.len() == 16,
    {
        let mut out: Vec<u8> = Vec::new();
        let mut rest: u128 = self.value;
        let mut left: usize = 16;
        proof {
            assert(be_bytes(rest as nat, 16) + out@ =~= self.bytes());
        }
        while left > 0
            invariant
                left <= 16,
                out@.len() == 16 - left,
                be_bytes(rest as nat, left as nat) + out@ == self.bytes(),
            decreases left,
        {
            let digit: u8 = (rest % 256) as u8;
            proof {
                let shorter = be_bytes((rest / 256) as nat, (left - 1) as nat);
                assert(shorter.push(digit) + out@ =~= shorter + (seq![digit] + out@));
            }
            let ghost earlier = out@;
            out.insert(0, digit);
            assert(out@ =~= seq![digit] + earlier);
            rest = rest / 256;
            left = left - 1;
        }
        proof {
            assert(be_bytes(rest as nat, 0) + out@ =~= out@);
        }
        out
    }
}

} // verus!

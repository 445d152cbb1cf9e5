//! Binary unit tiers in which byte counts and byte rates are shown.

use vstd::prelude::*;

verus! {

/// One of the four tiers, each 1024 times the one before.
#[derive(Clone, Copy, Debug, PartialEq, Eq, Structural)]
pub enum ByteUnit {
    Bytes,
    Kibi,
    Mebi,
    Gibi,
}

/// The tier in which `amount` is shown: the largest whose size the amount
/// strictly exceeds. An amount equal to a tier's size stays in the tier below.
pub open spec fn unit_for(amount: nat) -> ByteUnit {
    if amount > 1_073_741_824 {
        ByteUnit::Gibi
    } else if amount > 1_048_576 {
        ByteUnit::Mebi
    } else if amount > 1_024 {
        ByteUnit::Kibi
    } else {
        ByteUnit::Bytes
    }
}

impl ByteUnit {
    /// How many bytes make one of this unit.
    pub open spec fn spec_divisor(self) -> nat {
        match self {
            ByteUnit::Bytes => 1,
            ByteUnit::Kibi => 1_024,
            ByteUnit::Mebi => 1_048_576,
            ByteUnit::Gibi => 1_073_741_824,
        }
    }

    /// The unit's label behind an amount of data.
    pub open spec fn spec_size_label(self) -> Seq<char> {
        match self {
            ByteUnit::Bytes => "B"@,
            ByteUnit::Kibi => "Kib"@,
            ByteUnit::Mebi => "Mib"@,
            ByteUnit::Gibi => "Gib"@,
        }
    }

    /// The unit's label behind a rate.
    pub open spec fn spec_speed_label(self) -> Seq<char> {
        match self {
            ByteUnit::Bytes => "B/s"@,
            ByteUnit::Kibi => "KiB/s"@,
            ByteUnit::Mebi => "MiB/s"@,
            ByteUnit::Gibi => "GiB/s"@,
        }
    }

    /// The tier for `amount`.
    pub fn of(amount: u128) -> (unit: ByteUnit)
        ensures
            unit == unit_for(amount as nat),
    {
        if amount > 1_073_741_824 {
            ByteUnit::Gibi
        } else if amount > 1_048_576 {
            ByteUnit::Mebi
        } else if amount > 1_024 {
            ByteUnit::Kibi
        } else {
            ByteUnit::Bytes
        }
    }

    pub fn divisor(self) -> (d: u128)
        ensures
            d == self.spec_divisor(),
    {
        match self {
            ByteUnit::Bytes => 1,
            ByteUnit::Kibi => 1_024,
            ByteUnit::Mebi => 1_048_576,
            ByteUnit::Gibi => 1_073_741_824,
        }
    }

    pub fn size_label(self) -> (label: &'static str)
        ensures
            label@ == self.spec_size_label(),
    {
        match self {
            ByteUnit::Bytes => "B",
            ByteUnit::Kibi => "Kib",
            ByteUnit::Mebi => "Mib",
            ByteUnit::Gibi => "Gib",
        }
    }

    pub fn speed_label(self) -> (label: &'static str)
        ensures
            label@ == self.spec_speed_label(),
    {
        match self {
            ByteUnit::Bytes => "B/s",
            ByteUnit::Kibi => "KiB/s",
            ByteUnit::Mebi => "MiB/s",
            ByteUnit::Gibi => "GiB/s",
        }
    }
}

/// A byte count, or a byte rate per second, with the unit it is shown in.
/// The number shown is `amount` divided by the unit's size.
#[derive(Clone, Copy, Debug, PartialEq, Eq, Structural)]
pub struct ScaledAmount {
    pub amount: u128,
    pub unit: ByteUnit,
}

/// The rate `bytes_per_sec` with its unit, and the unit's label.
pub fn give_speed(bytes_per_sec: u128) -> (r: (ScaledAmount, &'static str))
    ensures
        r.0.amount == bytes_per_sec,
        r.0.unit == unit_for(bytes_per_sec as nat),
        r.1@ == unit_for(bytes_per_sec as nat).spec_speed_label(),
{
    let unit = ByteUnit::of(bytes_per_sec);
    (ScaledAmount { amount: bytes_per_sec, unit }, unit.speed_label())
}

/// The byte count `bytes_transfered` with its unit, and the unit's label.
pub fn give_data_transfer(bytes_transfered: usize) -> (r: (ScaledAmount, &'static str))
    ensures
        r.0.amount == bytes_transfered,
        r.0.unit == unit_for(bytes_transfered as nat),
        r.1@ == unit_for(bytes_transfered as nat).spec_size_label(),
{
    let amount: u128 = bytes_transfered as u128;
    let unit = ByteUnit::of(amount);
    (ScaledAmount { amount, unit }, unit.size_label())
}

/// A unit never shows an amount as less than one, but for amounts of bytes,
/// and an amount beyond 1024 never stays in bytes.
pub proof fn lemma_unit_fits(amount: nat)
    ensures
        unit_for(amount) != ByteUnit::Bytes ==> amount > unit_for(amount).spec_divisor(),
        amount > 1_024 ==> unit_for(amount) != ByteUnit::Bytes,
        amount <= 1_024 <==> unit_for(amount) == ByteUnit::Bytes,
{
}

} // verus!

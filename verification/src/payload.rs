//! Payloads as borrowed bytes.
//!
//! A `Payload` is the payload of a descriptor item where it lies, without a
//! copy. It is read as a little-endian number; an empty payload reads as 0.

use crate::usage_table::{Usage, UsagePage};
use vstd::prelude::*;
use vstd::std_specs::convert::TryFromSpecImpl;

verus! {

/// The payload of a descriptor item, borrowed from the bytes of the item.
#[derive(Clone, Copy, Debug)]
pub struct Payload<'a> {
    /// The bytes of the payload.
    pub data: &'a [u8],
}

impl<'a> Payload<'a> {
    /// The number that the payload holds, read as a little-endian number
    /// without a sign, if the payload has at most `width` bytes and their
    /// number is 0, 1, 2 or 4.
    pub open spec fn number(bytes: Seq<u8>, width: nat) -> Option<int> {
        if bytes.len() > width {
            None
        } else if bytes.len() == 0 {
            Some(0)
        } else if bytes.len() == 1 {
            Some(bytes[0] as int)
        } else if bytes.len() == 2 {
            Some(bytes[0] + 0x100 * bytes[1])
        } else if bytes.len() == 4 {
            Some(bytes[0] + 0x100 * bytes[1] + 0x1_0000 * bytes[2] + 0x100_0000 * bytes[3])
        } else {
            None
        }
    }

    /// Returns the payload that holds `data`.
    pub fn new(data: &'a [u8]) -> (payload: Self)
        ensures
            payload.data == data,
    {
        Payload { data }
    }

    /// Returns the bytes of the payload.
    pub fn data(&self) -> (data: &[u8])
        ensures
            data == self.data,
    {
        self.data
    }
}

impl<'a> TryFrom<Payload<'a>> for u16 {
    type Error = ();

    fn try_from(value: Payload<'a>) -> (number: Result<Self, Self::Error>) {
        let len = value.data.len();
        if len == 0 {
            Ok(0)
        } else if len == 1 {
            Ok(value.data[0] as u16)
        } else if len == 2 {
            Ok(value.data[0] as u16 + 0x100 * (value.data[1] as u16))
        } else {
            Err(())
        }
    }
}

impl<'a> TryFromSpecImpl<Payload<'a>> for u16 {
    open spec fn obeys_try_from_spec() -> bool {
        true
    }

    open spec fn try_from_spec(value: Payload<'a>) -> Result<Self, Self::Error> {
        match Payload::number(value.data@, 2) {
            Some(number) => Ok(number as u16),
            None => Err(()),
        }
    }
}

impl<'a> TryFrom<Payload<'a>> for u32 {
    type Error = ();

    fn try_from(value: Payload<'a>) -> (number: Result<Self, Self::Error>) {
        let len = value.data.len();
        if len == 0 {
            Ok(0)
        } else if len == 1 {
            Ok(value.data[0] as u32)
        } else if len == 2 {
            Ok(value.data[0] as u32 + 0x100 * (value.data[1] as u32))
        } else if len == 4 {
            Ok(
                value.data[0] as u32 + 0x100 * (value.data[1] as u32) + 0x1_0000 * (
                value.data[2] as u32) + 0x100_0000 * (value.data[3] as u32),
            )
        } else {
            Err(())
        }
    }
}

impl<'a> TryFromSpecImpl<Payload<'a>> for u32 {
    open spec fn obeys_try_from_spec() -> bool {
        true
    }

    open spec fn try_from_spec(value: Payload<'a>) -> Result<Self, Self::Error> {
        match Payload::number(value.data@, 4) {
            Some(number) => Ok(number as u32),
            None => Err(()),
        }
    }
}

impl<'a> TryFrom<Payload<'a>> for UsagePage {
    type Error = String;

    fn try_from(value: Payload<'a>) -> (page: Result<Self, Self::Error>)
        ensures
            match page {
                Ok(found) => Payload::number(value.data@, 2) matches Some(id) && found
                    == UsagePage::of_id(id as u16),
                Err(message) => Payload::number(value.data@, 2) is None && message@
                    == "Payload can not be converted to u16"@,
            },
    {
        match u16::try_from(value) {
            Ok(id) => Ok(UsagePage::from(id)),
            Err(_) => Err("Payload can not be converted to u16".to_owned()),
        }
    }
}

impl<'a> TryFromSpecImpl<Payload<'a>> for UsagePage {
    open spec fn obeys_try_from_spec() -> bool {
        false
    }

    open spec fn try_from_spec(value: Payload<'a>) -> Result<Self, Self::Error> {
        arbitrary()
    }
}

impl<'a> TryFrom<(&UsagePage, Payload<'a>)> for Usage {
    type Error = String;

    fn try_from(key: (&UsagePage, Payload<'a>)) -> (usage: Result<Self, Self::Error>)
        ensures
            match usage {
                Ok(found) => Payload::number(key.1.data@, 2) matches Some(id) && found
                    == Usage::of(*key.0, id as u16),
                Err(message) => Payload::number(key.1.data@, 2) is None && message@
                    == "Could not convert payload to u16 integer"@,
            },
    {
        match u16::try_from(key.1) {
            Ok(id) => Ok(Usage::from((key.0, id))),
            Err(_) => Err("Could not convert payload to u16 integer".to_owned()),
        }
    }
}

impl<'a> TryFromSpecImpl<(&UsagePage, Payload<'a>)> for Usage {
    open spec fn obeys_try_from_spec() -> bool {
        false
    }

    open spec fn try_from_spec(key: (&UsagePage, Payload<'a>)) -> Result<Self, Self::Error> {
        arbitrary()
    }
}

} // verus!

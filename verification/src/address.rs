//! A postal address taken from the query of a request.

use vstd::prelude::*;
use vstd::string::*;
use crate::decimal::{decimal, push_decimal};

verus! {

/// A street and a zip code.
#[derive(Debug)]
pub struct Address {
    pub street_name: String,
    pub zip_code: u32,
}

/// The line that shows an address.
pub open spec fn address_line(street_name: Seq<char>, zip_code: nat) -> Seq<char> {
    "Street Name: "@ + street_name + ", Zip Code: "@ + decimal(zip_code)
}

/// The line that shows `address`.
pub fn addr(address: &Address) -> (text: String)
    ensures
        text@ == address_line(address.street_name@, address.zip_code as nat),
{
    let mut text = String::from_str("Street Name: ");
    text.append(address.street_name.as_str());
    text.append(", Zip Code: ");
    push_decimal(&mut text, address.zip_code as u64);
    text
}

} // verus!

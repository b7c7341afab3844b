//! Mapping handlers for the four mapping kinds: simple, macro, tap/hold
//! (conditional) and combo.
use vstd::prelude::*;

use crate::events::InputEvent;
use crate::keycodes::{
    abs_code_of_name, key_code_of_name, parse_abs_code_numeric, parse_key_code_numeric,
    parse_rel_code_numeric, rel_code_of_name,
};
use crate::text::{parse_unsigned, parse_unsigned_str};

pub mod combo;
pub mod conditional;
pub mod macro_map;
pub mod simple;

verus! {

/// A name read as a decimal 16-bit number, as std's `str::parse::<u16>` reads it.
pub open spec fn number_code(name: Seq<char>) -> Option<u16> {
    match parse_unsigned(name, 65535) {
        Some(v) => Some(v as u16),
        None => None,
    }
}

/// The table's code for a key name, or else the name read as a number.
pub open spec fn key_code_or_number(name: Seq<char>) -> Option<u16> {
    match key_code_of_name(name) {
        Some(c) => Some(c),
        None => number_code(name),
    }
}

/// The table's code for an absolute-axis name, or else the name read as a number.
pub open spec fn abs_code_or_number(name: Seq<char>) -> Option<u16> {
    match abs_code_of_name(name) {
        Some(c) => Some(c),
        None => number_code(name),
    }
}

/// The table's code for a relative-axis name, or else the name read as a number.
pub open spec fn rel_code_or_number(name: Seq<char>) -> Option<u16> {
    match rel_code_of_name(name) {
        Some(c) => Some(c),
        None => number_code(name),
    }
}

/// Reads a name as a decimal 16-bit number.
pub fn parse_number_code(name: &str) -> (r: Option<u16>)
    ensures
        r == number_code(name@),
{
    match parse_unsigned_str(name, 65535) {
        Some(v) => Some(v as u16),
        None => None,
    }
}

/// The table's code for a key name, or else the name read as a number.
pub fn parse_key_or_number(name: &str) -> (r: Option<u16>)
    ensures
        r == key_code_or_number(name@),
{
    match parse_key_code_numeric(name) {
        Some(c) => Some(c),
        None => parse_number_code(name),
    }
}

/// The table's code for an absolute-axis name, or else the name read as a number.
pub fn parse_abs_or_number(name: &str) -> (r: Option<u16>)
    ensures
        r == abs_code_or_number(name@),
{
    match parse_abs_code_numeric(name) {
        Some(c) => Some(c),
        None => parse_number_code(name),
    }
}

/// The table's code for a relative-axis name, or else the name read as a number.
pub fn parse_rel_or_number(name: &str) -> (r: Option<u16>)
    ensures
        r == rel_code_or_number(name@),
{
    match parse_rel_code_numeric(name) {
        Some(c) => Some(c),
        None => parse_number_code(name),
    }
}

/// The operations that every mapping handler offers.
pub trait MappingHandler {
    /// Check if this handler handles the given event.
    fn handles(&self, event: &InputEvent) -> bool;

    /// Process an input event and return output events: none when the event
    /// is consumed, one for a remap, several for an expansion.
    fn process(&mut self, event: InputEvent) -> Vec<InputEvent>;

    /// Reset handler state, as when the engine stops.
    fn reset(&mut self);

    /// Get a description of this mapping.
    fn description(&self) -> String;
}

} // verus!

//! The source of entity and connection ids.

use snowflake::SnowflakeIdGenerator;
use std::time::{Duration, UNIX_EPOCH};
use vstd::prelude::*;

verus! {

/// Milliseconds between the Unix epoch and the instant ids are counted from.
pub const EPOCH_MILLIS: u64 = 1696118400000;

#[verifier::external_type_specification]
#[verifier::external_body]
pub struct ExSnowflakeIdGenerator(SnowflakeIdGenerator);

/// `SnowflakeIdGenerator::with_epoch`, with the epoch given in milliseconds
/// after the Unix epoch. Nothing is claimed of the generator that comes
/// back. The call reads the system clock and stops the process when the
/// clock stands before the epoch: the bound leaves out every epoch later
/// than [`EPOCH_MILLIS`], which lies in the past, so that the call returns
/// on every machine whose clock has not been set back before that instant.
#[verifier::external_body]
fn with_epoch(machine_id: i32, node_id: i32, epoch_millis: u64) -> (generator:
    SnowflakeIdGenerator)
    requires
        epoch_millis <= EPOCH_MILLIS,
{
    SnowflakeIdGenerator::with_epoch(
        machine_id,
        node_id,
        UNIX_EPOCH + Duration::from_millis(epoch_millis),
    )
}

/// `SnowflakeIdGenerator::real_time_generate`. The id depends on the system
/// clock, so nothing is claimed of it. The call stops the process when the
/// system clock stands before the epoch of the generator.
#[verifier::external_body]
fn real_time_generate(generator: &mut SnowflakeIdGenerator) -> (id: i64) {
    generator.real_time_generate()
}

/// The generator every id of the process is drawn from: machine 0, node 0,
/// counting from [`EPOCH_MILLIS`]. The generator belongs to the outside
/// crate and starts from the system clock: it is opaque here, and nothing
/// is claimed of it.
pub fn init() -> (generator: SnowflakeIdGenerator) {
    with_epoch(0, 0, EPOCH_MILLIS)
}

/// The next id. It is built from the system clock, which may step back:
/// neither that it grows nor that it is new holds of every outcome, so
/// nothing is claimed of it. What takes an id is verified for every value
/// of it, and a record whose id is taken is refused as a conflict.
pub fn generate(generator: &mut SnowflakeIdGenerator) -> (id: i64) {
    real_time_generate(generator)
}

} // verus!

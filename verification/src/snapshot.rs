//! The hot-swap cell: the one place where the current security snapshot is
//! published, and the reload that replaces it.
//!
//! Readers take a reference-counted handle to the snapshot and keep it for
//! as long as they need one consistent configuration. A reload publishes a
//! freshly built snapshot; handles taken before keep the old one alive.

use crate::configuration::ConfigError;
use crate::configuration::GatewayConfig;
use crate::security::seeded_snapshot;
use crate::security::SecurityLayer;
use crate::security::SnapshotView;
use arc_swap::ArcSwap;
use std::sync::Arc;
use vstd::prelude::*;

verus! {

/// An `arc_swap::ArcSwap` over the snapshot. The type of its strategy
/// cannot be named outside its crate, so the cell is held behind this struct
/// and reached through the functions below; [`published`] names what it
/// holds.
#[verifier::external_body]
pub struct SnapshotCell {
    slot: ArcSwap<SecurityLayer>,
}

/// The snapshot a cell currently holds.
pub uninterp spec fn published(cell: SnapshotCell) -> SecurityLayer;

/// `ArcSwap::from_pointee`: a cell that holds `layer`.
#[verifier::external_body]
fn cell_holding(layer: SecurityLayer) -> (cell: SnapshotCell)
    ensures
        published(cell) == layer,
{
    SnapshotCell { slot: ArcSwap::from_pointee(layer) }
}

/// `ArcSwapAny::load_full`: a counted handle to the snapshot the cell
/// holds. The cell is left as it was.
#[verifier::external_body]
fn load_full(cell: &SnapshotCell) -> (snapshot: Arc<SecurityLayer>)
    ensures
        *snapshot == published(*cell),
{
    cell.slot.load_full()
}

/// `ArcSwapAny::store`: afterwards the cell holds `layer`.
#[verifier::external_body]
fn store(cell: &mut SnapshotCell, layer: SecurityLayer)
    ensures
        published(*final(cell)) == layer,
{
    cell.slot.store(Arc::new(layer));
}

/// The snapshot a cell holds after a reload that was handed `loaded`, the
/// outcome of reading the configuration again: a valid configuration
/// replaces the snapshot, anything else leaves it.
pub open spec fn reloaded(before: SnapshotView, loaded: Result<GatewayConfig, ConfigError>) -> SnapshotView {
    match loaded {
        Ok(config) => if config.is_valid() {
            seeded_snapshot(config.rate_limit_per_second, config.jwt_secret@)
        } else {
            before
        },
        Err(_) => before,
    }
}

impl SnapshotCell {
    /// The snapshot new requests observe.
    pub closed spec fn current(&self) -> SecurityLayer {
        published(*self)
    }

    /// A cell that publishes `layer`.
    pub fn new(layer: SecurityLayer) -> (cell: SnapshotCell)
        ensures
            cell.current() == layer,
    {
        cell_holding(layer)
    }

    /// Takes a handle to the current snapshot.
    pub fn load(&self) -> (snapshot: Arc<SecurityLayer>)
        ensures
            *snapshot == self.current(),
    {
        load_full(self)
    }

    /// Publishes `layer` in place of the current snapshot.
    pub fn publish(&mut self, layer: SecurityLayer)
        ensures
            final(self).current() == layer,
    {
        store(self, layer);
    }

    /// Handles a reload signal, given the outcome of reading the
    /// configuration file again. A configuration that was read and is valid
    /// becomes the new snapshot. A read failure or an invalid configuration
    /// is reported and the current snapshot stays.
    pub fn reload(&mut self, loaded: Result<GatewayConfig, ConfigError>) -> (outcome: Result<
        (),
        ConfigError,
    >)
        ensures
            final(self).current()@ == reloaded(old(self).current()@, loaded),
            outcome is Ok <==> (loaded matches Ok(config) && config.is_valid()),
            loaded matches Err(error) ==> outcome == Err::<(), ConfigError>(error),
            loaded matches Ok(config) ==> match config.first_fault() {
                None => outcome is Ok,
                Some(fault) => outcome matches Err(ConfigError::Validation(text)) && text@
                    == fault.diagnostic(),
            },
            !(outcome is Ok) ==> final(self).current() == old(self).current(),
    {
        match loaded {
            Err(error) => Err(error),
            Ok(config) => match config.validate() {
                Err(error) => Err(error),
                Ok(()) => {
                    self.publish(
                        SecurityLayer::new(
                            config.rate_limit_per_second,
                            config.jwt_secret.as_str(),
                        ),
                    );
                    Ok(())
                },
            },
        }
    }
}

/// A reload with a valid configuration makes the configured ceiling and key
/// the ones that later loads see, whatever was published before; a reload
/// that fails changes nothing. A snapshot taken before the reload is a value
/// of its own and is not touched by either.
pub proof fn lemma_reload_takes_effect(before: SnapshotView, config: GatewayConfig, failure: ConfigError)
    ensures
        config.is_valid() ==> reloaded(before, Ok(config)) == seeded_snapshot(
            config.rate_limit_per_second,
            config.jwt_secret@,
        ),
        config.is_valid() ==> reloaded(before, Ok(config)).rate_limit_per_second
            == config.rate_limit_per_second,
        !config.is_valid() ==> reloaded(before, Ok(config)) == before,
        reloaded(before, Err(failure)) == before,
{
}

} // verus!

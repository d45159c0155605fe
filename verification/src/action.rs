//! The rows that the service writes to the gauge table.
use crate::model::{GaugeUpdate, NewGauge};
use vstd::prelude::*;

verus! {

/// The row that creating a gauge inserts: the gauge's name, with value 0.
pub fn add_new_gauge(gauge_name: String) -> (row: NewGauge)
    ensures
        row.name == gauge_name,
        row.value == 0,
{
    NewGauge { name: gauge_name, value: 0 }
}

/// The change that sets a gauge's value to `gauge_value`.
pub fn update_gauge_value(gauge_value: i64) -> (update: GaugeUpdate)
    ensures
        update == (GaugeUpdate { value: Some(gauge_value) }),
{
    GaugeUpdate { value: Some(gauge_value) }
}

} // verus!

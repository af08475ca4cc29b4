//! A fieldbus control core for EtherCAT machines: bit-exact device drivers,
//! the identification and grouping of bus devices into machines, machine
//! construction, and the decisions of the real-time cycle.

pub mod app_state;
pub mod bits;
pub mod devices;
pub mod error;
pub mod machine_identification;
pub mod machines;
pub mod registry;
pub mod rt_loop;
pub mod setup;
pub mod test_el2008_machine;

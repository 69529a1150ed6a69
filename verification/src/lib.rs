//! Typed model, validation rules, and deterministic source fragments for
//! generated RTIC flight-controller applications.

pub mod dma_route;
pub mod pins;
pub mod text;
pub mod dshot;
pub mod gpio;
pub mod safety_channel;
pub mod timing;
pub mod platform_config;
pub mod board;
pub mod task;
pub mod periodic_control;
pub mod imu_endpoint;
pub mod button_exti;
pub mod legacy;
pub mod legacy_interrupts;
pub mod composition;
pub mod task_graph;
pub mod bindings;
pub mod serial;
pub mod resolve;
pub mod state;
pub mod lower;
pub mod input_catalog;
pub mod serial_osd;
pub mod runner;
pub mod component;
pub mod listing;
pub mod expand;
pub mod serial_endpoint;
pub mod serial_lowering;
pub mod task_state;
pub mod rendered;
pub mod dshot_bank;
pub mod operations;
pub mod resource_lowering;
pub mod initialization;
pub mod imports;
pub mod service_initialization;
pub mod dshot_initialization;
pub mod init_source;
pub mod osd_overlay;
pub mod hardware_lowering;
pub mod endpoint_resolution;
pub mod component_expansion;
pub mod application;
pub mod state_rules;

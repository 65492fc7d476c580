//! Telemetry decoders for racing simulators: byte-level packet parsing,
//! protocol state machines and configuration logic for each supported game.
pub mod bytes;
pub mod error;
pub mod gran_turismo_7;
pub mod acc_reader;
pub mod acc;
pub mod ac_rally;
pub mod settings;
pub mod f1_25;
pub mod f1_native;
pub mod dakar;
pub mod process;
pub mod beamng;
pub mod assetto_corsa;
pub mod ets2;
pub mod forza;
pub mod forza_horizon;
pub mod codemasters_shared;
pub mod dirt3;
pub mod dirt4;
pub mod dirt_rally_2;
pub mod grid_autosport;
pub mod grid_legends;
pub mod text;
pub mod codemasters_udp;
pub mod dirt5;
pub mod f1;
pub mod ac_evo;
pub mod acc2;
pub mod f1_manager;
pub mod gravel;
pub mod gran_turismo_sport;
pub mod automobilista;

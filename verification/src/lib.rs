//! Read-write-many volumes for Hetzner Cloud: the decisions of the share-manager, the
//! CSI driver, the failover controller and the NFSv4 recovery backend.

pub mod api;
pub mod block;
pub mod cli;
pub mod cluster;
pub mod controller;
pub mod csi;
pub mod exec;
pub mod failure;
pub mod json;
pub mod laws;
pub mod nfs;
pub mod provision;
pub mod publish;
pub mod recovery;
pub mod sharemanager;
pub mod text;
pub mod textmap;

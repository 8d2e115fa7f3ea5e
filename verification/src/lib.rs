//! Decoders for industrial protocols.

pub mod ab_csp;
pub mod ads;
pub mod avtp;
pub mod bacnet;
pub mod bacnet_sc;
pub mod bytes;
pub mod cip_safety;
pub mod collections;
pub mod dnp3;
pub mod dnp3_sav5;
pub mod eip_io;
pub mod ethercat;
pub mod ethernet_ip;
pub mod events;
pub mod ff_hse;
pub mod ge_srtp;
pub mod gvcp;
pub mod hart_ip;
pub mod iec104;
pub mod iec61850;
pub mod melsec;
pub mod modbus;
pub mod modbus_udp;
pub mod naming;
pub mod omron_fins;
pub mod opc_classic;
pub mod opc_ua;
pub mod opc_ua_binary;
pub mod opc_ua_pubsub;
pub mod osi_pi;
pub mod packet;
pub mod text;

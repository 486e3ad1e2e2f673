//! The input-parameter record the board-controller library expects when a
//! session is prepared. Building it is plain data; turning it into the
//! JSON string the foreign library takes happens outside this crate.

use vstd::prelude::*;

verus! {

/// Connection parameters for the board-controller session.
pub struct BrainFlowInputParams {
    pub serial_port: String,
    pub mac_address: String,
    pub ip_address: String,
    pub ip_address_aux: String,
    pub ip_address_anc: String,
    pub ip_port: i32,
    pub ip_port_aux: i32,
    pub ip_port_anc: i32,
    pub ip_protocol: i32,
    pub other_info: String,
    pub timeout: i32,
    pub serial_number: String,
    pub file: String,
    pub file_aux: String,
    pub file_anc: String,
    pub master_board: i32,
}

impl BrainFlowInputParams {
    /// Parameters for a serial dongle on `port`: everything else empty or
    /// zero, and no master board (the sentinel -100).
    pub fn for_serial(port: &str) -> (p: BrainFlowInputParams)
        ensures
            p.serial_port@ == port@,
            p.mac_address@.len() == 0,
            p.ip_address@.len() == 0,
            p.ip_address_aux@.len() == 0,
            p.ip_address_anc@.len() == 0,
            p.ip_port == 0,
            p.ip_port_aux == 0,
            p.ip_port_anc == 0,
            p.ip_protocol == 0,
            p.other_info@.len() == 0,
            p.timeout == 0,
            p.serial_number@.len() == 0,
            p.file@.len() == 0,
            p.file_aux@.len() == 0,
            p.file_anc@.len() == 0,
            p.master_board == -100,
    {
        BrainFlowInputParams {
            serial_port: port.to_string(),
            mac_address: String::new(),
            ip_address: String::new(),
            ip_address_aux: String::new(),
            ip_address_anc: String::new(),
            ip_port: 0,
            ip_port_aux: 0,
            ip_port_anc: 0,
            ip_protocol: 0,
            other_info: String::new(),
            timeout: 0,
            serial_number: String::new(),
            file: String::new(),
            file_aux: String::new(),
            file_anc: String::new(),
            master_board: -100,
        }
    }
}

} // verus!

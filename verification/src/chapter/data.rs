//! The chapter tables read by header name, with the delimiter detected from
//! the content.

pub mod map_option;
pub mod map_name;
pub mod scatcpusetting;
pub mod scorebonusmap;
pub mod stage_option;

pub mod mercuryo;
pub mod model;
pub mod ramp;

//! What holds of the library as a whole.

pub mod bridging;
pub mod commanding;
pub mod declarations;
pub mod documents;
pub mod naming;
pub mod routing;
pub mod running;
pub mod starting;
pub mod states;
pub mod streaming;
pub mod syncing;
pub mod timing;

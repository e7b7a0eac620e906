//! Roles that a pin can be certified for on the management bus.
use vstd::prelude::*;

verus! {

/// A pin that can serve as the management data line (MDIO).
pub trait MdioPin {

}

/// A pin that can serve as the management clock line (MDC).
pub trait MdcPin {

}

} // verus!

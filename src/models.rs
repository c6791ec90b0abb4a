//! Response records whose fields are all plain text.

use vstd::prelude::*;

verus! {

/// Details of an account history entry: the order, trade and product it
/// arose from.
pub struct AccountHistoryDetails {
    pub order_id: String,
    pub trade_id: String,
    pub product_id: String,
}

} // verus!

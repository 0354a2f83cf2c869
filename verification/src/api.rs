//! Triage of an incoming prediction request: which field is missing, or
//! what to predict.

use vstd::prelude::*;

verus! {

/// The deserialized request data: the ticker symbol of the stock to
/// predict and the number of days to predict into the future, either of
/// which may be missing from the request.
#[derive(Debug, Clone)]
pub struct Request {
    pub symbol: Option<String>,
    pub days: Option<u32>,
}

/// What a request calls for: a rejection for a missing field, or a
/// prediction over its symbol and day count.
#[derive(Debug)]
pub enum RequestPlan {
    MissingSymbol,
    MissingDays,
    Predict { symbol: String, days: u32 },
}

/// Decides what a request calls for. A request without a symbol is
/// turned away first, one with a symbol but no day count next; only a
/// request with both fields is handed on for prediction, unchanged.
pub fn plan_request(request: &Request) -> (p: RequestPlan)
    ensures
        p is MissingSymbol <==> request.symbol is None,
        p is MissingDays <==> (request.symbol is Some && request.days is None),
        request.symbol matches Some(sym) ==> (request.days matches Some(d) ==> (p
            matches RequestPlan::Predict { symbol, days } && symbol@ == sym@ && days == d)),
{
    match (&request.symbol, &request.days) {
        (None, _) => RequestPlan::MissingSymbol,
        (Some(_), None) => RequestPlan::MissingDays,
        (Some(symbol), Some(days)) => RequestPlan::Predict {
            symbol: symbol.clone(),
            days: *days,
        },
    }
}

/// The error message for a request without a ticker symbol.
pub fn missing_symbol_message() -> (r: String)
    ensures
        r@ == "Stock ticker symbol must be set!"@,
{
    String::from_str("Stock ticker symbol must be set!")
}

/// The error message for a request without a day count.
pub fn missing_days_message() -> (r: String)
    ensures
        r@ == "Future days must be set!"@,
{
    String::from_str("Future days must be set!")
}

/// The error message that wraps whatever a failed prediction reported.
pub fn error_message(detail: &str) -> (r: String)
    ensures
        r@ == "An error occurred: "@ + detail@,
{
    String::from_str("An error occurred: ").concat(detail)
}

} // verus!

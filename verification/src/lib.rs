//! Reverse geocoding pipeline: build a what3words request URL from a
//! coordinate pair, interpret the HTTP response, extract the three-word
//! address from the JSON body, and decide one line of output per CSV row.
pub mod driver;
pub mod error;
pub mod input;
pub mod response;
pub mod url;
pub mod words;

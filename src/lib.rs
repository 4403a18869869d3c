//! Portable error chains: a causal error flattened into a message and the
//! messages of its causes, a JSON wire format for that chain, and an HTTP
//! error value that renders any such chain as a response.

mod chain;
mod codec;
mod http;
mod serror;

pub use crate::chain::{chain_of, is_text_chain, flatten_chain, lemma_flatten_unflatten, unflatten_chain};
pub use crate::codec::{
    all_strings, decoded_or_text, deserialize_error, deserialize_serror, encode_serror,
    encode_serror_pretty, escaped, escaped_char, hex_digit, json_array, json_member, json_parse, json_quoted, json_string,
    quoted_list, serialize_error, serialize_error_pretty, serror_from_value, text_chain,
    try_deserialize_serror, try_serialize_error, try_serialize_error_pretty, value_chain,
    wire_text, wire_text_pretty, CodecError,
};
pub use crate::http::{
    body_decode_message, lemma_default_content_type, lemma_header_names_ignore_case, lemma_header_values_kept_in_order,
    lower_ascii, response_headers, values_of,
    AddHeaders, AddHeadersError, AddStatusCode, AddStatusCodeError, HeaderMap, HttpError, Json,
    JsonError, Response, StatusCode,
};
pub use crate::serror::{serror_into_error, texts, Serror};

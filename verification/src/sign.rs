//! The signed parameters of one query.
//!
//! A query carries its payload as text, and beside it a signature that only
//! the holder of the account's key can make: the MD5 digest of the payload
//! followed by the key, written in hexadecimal and then in base64.

use vstd::prelude::*;
use vstd::string::StringExecFns;
use crate::config::{Config, ConfigView};

verus! {

/// The payload of a query: which shipment of which courier.
#[derive(Debug)]
pub struct ApiData {
    pub order_code: String,
    pub shipper_code: String,
    pub logistic_code: String,
}

/// A payload as plain values.
pub struct ApiDataView {
    pub order_code: Seq<char>,
    pub shipper_code: Seq<char>,
    pub logistic_code: Seq<char>,
}

impl View for ApiData {
    type V = ApiDataView;

    open spec fn view(&self) -> ApiDataView {
        ApiDataView {
            order_code: self.order_code@,
            shipper_code: self.shipper_code@,
            logistic_code: self.logistic_code@,
        }
    }
}

impl DeepView for ApiData {
    type V = ApiDataView;

    open spec fn deep_view(&self) -> ApiDataView {
        self@
    }
}

impl Clone for ApiData {
    fn clone(&self) -> (r: Self)
        ensures
            r == *self,
    {
        ApiData {
            order_code: self.order_code.clone(),
            shipper_code: self.shipper_code.clone(),
            logistic_code: self.logistic_code.clone(),
        }
    }
}

impl Default for ApiData {
    fn default() -> (r: Self)
        ensures
            r@.order_code.len() == 0,
            r@.shipper_code.len() == 0,
            r@.logistic_code.len() == 0,
    {
        ApiData {
            order_code: String::new(),
            shipper_code: String::new(),
            logistic_code: String::new(),
        }
    }
}

impl PartialEq for ApiData {
    fn eq(&self, other: &ApiData) -> (r: bool) {
        self.order_code == other.order_code && self.shipper_code == other.shipper_code
            && self.logistic_code == other.logistic_code
    }
}

impl vstd::std_specs::cmp::PartialEqSpecImpl for ApiData {
    open spec fn obeys_eq_spec() -> bool {
        true
    }

    open spec fn eq_spec(&self, other: &ApiData) -> bool {
        self.order_code@ == other.order_code@ && self.shipper_code@ == other.shipper_code@
            && self.logistic_code@ == other.logistic_code@
    }
}

/// The parameters of a query, as the tracking service takes them.
#[derive(Debug)]
pub struct ApiParams {
    pub request_data: String,
    pub ebusiness_id: String,
    pub request_type: String,
    pub data_sign: String,
    pub data_type: i64,
}

/// Parameters as plain values.
pub struct ApiParamsView {
    pub request_data: Seq<char>,
    pub ebusiness_id: Seq<char>,
    pub request_type: Seq<char>,
    pub data_sign: Seq<char>,
    pub data_type: int,
}

impl View for ApiParams {
    type V = ApiParamsView;

    open spec fn view(&self) -> ApiParamsView {
        ApiParamsView {
            request_data: self.request_data@,
            ebusiness_id: self.ebusiness_id@,
            request_type: self.request_type@,
            data_sign: self.data_sign@,
            data_type: self.data_type as int,
        }
    }
}

impl DeepView for ApiParams {
    type V = ApiParamsView;

    open spec fn deep_view(&self) -> ApiParamsView {
        self@
    }
}

impl Clone for ApiParams {
    fn clone(&self) -> (r: Self)
        ensures
            r == *self,
    {
        ApiParams {
            request_data: self.request_data.clone(),
            ebusiness_id: self.ebusiness_id.clone(),
            request_type: self.request_type.clone(),
            data_sign: self.data_sign.clone(),
            data_type: self.data_type,
        }
    }
}

impl Default for ApiParams {
    fn default() -> (r: Self)
        ensures
            r@.request_data.len() == 0,
            r@.ebusiness_id.len() == 0,
            r@.request_type.len() == 0,
            r@.data_sign.len() == 0,
            r@.data_type == 0,
    {
        ApiParams {
            request_data: String::new(),
            ebusiness_id: String::new(),
            request_type: String::new(),
            data_sign: String::new(),
            data_type: 0,
        }
    }
}

impl PartialEq for ApiParams {
    fn eq(&self, other: &ApiParams) -> (r: bool) {
        self.request_data == other.request_data && self.ebusiness_id == other.ebusiness_id
            && self.request_type == other.request_type && self.data_sign == other.data_sign
            && self.data_type == other.data_type
    }
}

impl vstd::std_specs::cmp::PartialEqSpecImpl for ApiParams {
    open spec fn obeys_eq_spec() -> bool {
        true
    }

    open spec fn eq_spec(&self, other: &ApiParams) -> bool {
        self.request_data@ == other.request_data@ && self.ebusiness_id@ == other.ebusiness_id@
            && self.request_type@ == other.request_type@ && self.data_sign@ == other.data_sign@
            && self.data_type == other.data_type
    }
}

/// The MD5 digest of a text's UTF-8 bytes, written as hexadecimal digits in
/// lower case.
pub uninterp spec fn md5_hex(text: Seq<char>) -> Seq<char>;

/// The standard base64 encoding, with padding, of a text's UTF-8 bytes.
pub uninterp spec fn base64_text(text: Seq<char>) -> Seq<char>;

/// The number of hexadecimal digits of an MD5 digest.
pub const DIGEST_DIGITS: usize = 32;

/// The most characters that `encode_text` takes.
pub const ENCODE_LIMIT: usize = 0x1000_0000;

/// Calls `md5::compute` on the text's bytes and writes the digest with its
/// `LowerHex` form. The digest is a function of the bytes alone. Its text
/// has two digits for each of the digest's sixteen bytes.
#[verifier::external_body]
fn digest_text(text: &str) -> (r: String)
    ensures
        r@ == md5_hex(text@),
        r@.len() == DIGEST_DIGITS,
{
    format!("{:x}", md5::compute(text))
}

/// Calls `base64::encode` on the text's bytes. The encoding is a function
/// of the bytes alone. `base64::encode` panics where the encoded size does
/// not fit in memory; the limit on the text keeps far from that, on 32-bit
/// machines too.
#[verifier::external_body]
fn encode_text(text: &str) -> (r: String)
    requires
        text@.len() <= ENCODE_LIMIT,
    ensures
        r@ == base64_text(text@),
{
    base64::encode(text)
}

/// The kind of request that asks for a shipment's trace.
pub open spec fn trace_request() -> Seq<char> {
    "8001"@
}

/// The number by which the service knows the payload to be JSON.
pub const JSON_DATA: i64 = 2;

/// The parameters that carry a payload and its signature for the account
/// of `config`.
pub open spec fn params_with(data: Seq<char>, sign: Seq<char>, config: ConfigView) -> ApiParamsView {
    ApiParamsView {
        request_data: data,
        ebusiness_id: config.id,
        request_type: trace_request(),
        data_sign: sign,
        data_type: JSON_DATA as int,
    }
}

/// The signature of a payload under a key.
pub open spec fn signature(data: Seq<char>, key: Seq<char>) -> Seq<char> {
    base64_text(md5_hex(data + key))
}

/// The signed parameters that carry a payload for the account of `config`.
pub open spec fn params_of(data: Seq<char>, config: ConfigView) -> ApiParamsView {
    params_with(data, signature(data, config.key), config)
}

/// The payload that asks for the shipment `id` of the courier `company`.
/// The order code is left empty.
pub fn api_data(id: &str, company: &str) -> (r: ApiData)
    ensures
        r@ == (ApiDataView {
            order_code: Seq::empty(),
            shipper_code: company@,
            logistic_code: id@,
        }),
{
    ApiData {
        order_code: String::new(),
        logistic_code: id.to_owned(),
        shipper_code: company.to_owned(),
    }
}

/// The digest that a payload is signed with: MD5 of the payload followed by
/// the key, in hexadecimal.
pub fn make_sing(data: &str, key: &str) -> (r: String)
    ensures
        r@ == md5_hex(data@ + key@),
        r@.len() == DIGEST_DIGITS,
{
    let joined = data.to_owned().concat(key);
    digest_text(joined.as_str())
}

/// Puts the parameters of a query together from its payload, written out
/// as JSON, and the payload's signature.
pub fn signed_params(data_json: String, data_sign: String, config: &Config) -> (r: ApiParams)
    ensures
        r@ == params_with(data_json@, data_sign@, config@),
{
    ApiParams {
        ebusiness_id: config.id.clone(),
        request_data: data_json,
        request_type: "8001".to_owned(),
        data_sign,
        data_type: 2,
    }
}

/// Builds the parameters of a query from its payload, written out as JSON,
/// and signs them with the key of `config`.
pub fn make_params(data_json: String, config: &Config) -> (r: ApiParams)
    ensures
        r@ == params_of(data_json@, config@),
{
    let data_sing = make_sing(data_json.as_str(), config.key.as_str());
    let data_sign = encode_text(data_sing.as_str());
    signed_params(data_json, data_sign, config)
}

} // verus!

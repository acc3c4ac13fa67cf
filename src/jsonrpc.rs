use vstd::prelude::*;

use crate::error::Error;
use crate::text::{str_eq, texts_of};

verus! {

/// The failures of a JSON-RPC call as the daemon reports them, plus a
/// response that follows no known shape.
#[derive(Debug, Clone, Copy, PartialEq, Eq, Structural)]
pub enum JsonRPCError {
    ParseError,
    InvalidRequest,
    MethodNotFound,
    InvalidParams,
    InternalError,
    ServerError,
    OtherError,
    NotStandardResponse,
}

impl JsonRPCError {
    /// The human-readable description of the error.
    pub fn message(&self) -> (r: &'static str)
        ensures
            r@ == rpc_error_message(*self),
    {
        match self {
            JsonRPCError::ParseError => "parse error",
            JsonRPCError::InvalidRequest => "invalid request",
            JsonRPCError::MethodNotFound => "method not found",
            JsonRPCError::InvalidParams => "invalid params",
            JsonRPCError::InternalError => "internal error",
            JsonRPCError::ServerError => "server error",
            JsonRPCError::OtherError => "application custom error",
            JsonRPCError::NotStandardResponse => "server returns non-standard response",
        }
    }
}

/// The description that `JsonRPCError::message` gives for each error.
pub open spec fn rpc_error_message(e: JsonRPCError) -> Seq<char> {
    match e {
        JsonRPCError::ParseError => "parse error"@,
        JsonRPCError::InvalidRequest => "invalid request"@,
        JsonRPCError::MethodNotFound => "method not found"@,
        JsonRPCError::InvalidParams => "invalid params"@,
        JsonRPCError::InternalError => "internal error"@,
        JsonRPCError::ServerError => "server error"@,
        JsonRPCError::OtherError => "application custom error"@,
        JsonRPCError::NotStandardResponse => "server returns non-standard response"@,
    }
}

/// The error that the daemon's numeric error code stands for.
pub open spec fn error_of_code(code: int) -> JsonRPCError {
    if code == -32700 {
        JsonRPCError::ParseError
    } else if code == -32600 {
        JsonRPCError::InvalidRequest
    } else if code == -32601 {
        JsonRPCError::MethodNotFound
    } else if code == -32602 {
        JsonRPCError::InvalidParams
    } else if code == -32603 {
        JsonRPCError::InternalError
    } else if -32099 <= code <= -32000 {
        JsonRPCError::ServerError
    } else {
        JsonRPCError::OtherError
    }
}

impl JsonRPCError {
    /// Classifies a daemon error code.
    pub fn from_code(code: i64) -> (r: JsonRPCError)
        ensures
            r == error_of_code(code as int),
    {
        if code == -32700 {
            JsonRPCError::ParseError
        } else if code == -32600 {
            JsonRPCError::InvalidRequest
        } else if code == -32601 {
            JsonRPCError::MethodNotFound
        } else if code == -32602 {
            JsonRPCError::InvalidParams
        } else if code == -32603 {
            JsonRPCError::InternalError
        } else if -32099 <= code && code <= -32000 {
            JsonRPCError::ServerError
        } else {
            JsonRPCError::OtherError
        }
    }
}


/// The three daemon operations that requests are built for.
#[derive(Debug, Clone, Copy, PartialEq, Eq, Structural)]
pub enum JsonRPCMethod {
    AddUri,
    GetVersion,
    TellStatus,
}

/// The daemon's name of an operation.
pub open spec fn method_name(m: JsonRPCMethod) -> Seq<char> {
    match m {
        JsonRPCMethod::AddUri => "aria2.addUri"@,
        JsonRPCMethod::GetVersion => "aria2.getVersion"@,
        JsonRPCMethod::TellStatus => "aria2.tellStatus"@,
    }
}

impl JsonRPCMethod {
    pub fn name(&self) -> (r: &'static str)
        ensures
            r@ == method_name(*self),
    {
        match self {
            JsonRPCMethod::AddUri => "aria2.addUri",
            JsonRPCMethod::GetVersion => "aria2.getVersion",
            JsonRPCMethod::TellStatus => "aria2.tellStatus",
        }
    }
}

/// The JSON string literal that serde_json writes for a string: the
/// characters quoted and escaped.
pub uninterp spec fn json_quoted(s: Seq<char>) -> Seq<char>;

/// Relies on `serde_json::to_string` for a `str`: it writes the string as a
/// JSON string literal. serde_json documents failure only for a `Serialize`
/// impl that fails or a map with non-string keys, neither of which a `str`
/// has, so the error arm is never taken.
/// A string with no `"`, no `\` and no control character below U+0020
/// is written between two quote marks as it stands (serde_json's escape
/// table leaves every other character unchanged).
#[verifier::external_body]
fn quote(s: &str) -> (r: String)
    ensures
        r@ == json_quoted(s@),
        json_plain(s@) ==> r@ == seq!['"'] + s@ + seq!['"'],
{
    match serde_json::to_string(s) {
        Ok(t) => t,
        Err(_) => String::new(),
    }
}

/// No character of `s` needs escaping in a JSON string: none is `"`, `\`,
/// or a control character below U+0020.
pub open spec fn json_plain(s: Seq<char>) -> bool {
    forall|i: int| 0 <= i < s.len() ==> {
        &&& #[trigger] s[i] != '"'
        &&& s[i] != '\\'
        &&& (s[i] as u32) >= 32
    }
}

/// serde_json quotes `s` as it stands, if nothing in it needs escaping.
pub open spec fn quotes_plainly(s: Seq<char>) -> bool {
    json_plain(s) ==> json_quoted(s) == seq!['"'] + s + seq!['"']
}

/// `quotes_plainly` holds of every string of a parameter.
pub open spec fn param_quotes_plainly(p: ParamView) -> bool {
    match p {
        ParamView::Text(s) => quotes_plainly(s),
        ParamView::List(v) => forall|k: int| 0 <= k < v.len() ==> quotes_plainly(#[trigger] v[k]),
    }
}

/// One positional parameter of a request: a string, or a list of strings.
#[derive(Debug)]
pub enum Param {
    Text(String),
    List(Vec<String>),
}

/// What a parameter holds.
pub enum ParamView {
    Text(Seq<char>),
    List(Seq<Seq<char>>),
}

impl View for Param {
    type V = ParamView;

    open spec fn view(&self) -> ParamView {
        match self {
            Param::Text(s) => ParamView::Text(s@),
            Param::List(v) => ParamView::List(texts_of(v@)),
        }
    }
}

pub open spec fn params_of(v: Seq<Param>) -> Seq<ParamView> {
    v.map_values(|p: Param| p@)
}

/// The quoted strings of `v`, separated by commas.
pub open spec fn strings_text(v: Seq<Seq<char>>) -> Seq<char>
    decreases v.len(),
{
    if v.len() == 0 {
        Seq::empty()
    } else if v.len() == 1 {
        json_quoted(v[0])
    } else {
        strings_text(v.drop_last()) + ","@ + json_quoted(v.last())
    }
}

/// The JSON text of one parameter.
pub open spec fn param_text(p: ParamView) -> Seq<char> {
    match p {
        ParamView::Text(s) => json_quoted(s),
        ParamView::List(v) => "["@ + strings_text(v) + "]"@,
    }
}

/// The JSON texts of the parameters, separated by commas.
pub open spec fn params_text(v: Seq<ParamView>) -> Seq<char>
    decreases v.len(),
{
    if v.len() == 0 {
        Seq::empty()
    } else if v.len() == 1 {
        param_text(v[0])
    } else {
        params_text(v.drop_last()) + ","@ + param_text(v.last())
    }
}

/// What a request holds: the protocol version, the operation, the client's
/// identifier and the positional parameters.
pub struct JsonRPCView {
    pub jsonrpc: Seq<char>,
    pub method: JsonRPCMethod,
    pub id: Option<Seq<char>>,
    pub params: Seq<ParamView>,
}

pub open spec fn opt_quoted(s: Option<Seq<char>>) -> Seq<char> {
    match s {
        Some(t) => json_quoted(t),
        None => "null"@,
    }
}

/// The serialized request: one JSON object with the fields `jsonrpc`,
/// `method`, `id` and `params`, in that order, an absent `id` as `null`.
pub open spec fn request_text(r: JsonRPCView) -> Seq<char> {
    "{\"jsonrpc\":"@ + json_quoted(r.jsonrpc) + ",\"method\":"@ + json_quoted(method_name(r.method))
        + ",\"id\":"@ + opt_quoted(r.id) + ",\"params\":"@ + "["@ + params_text(r.params) + "]"@ + "}"@
}

/// The token that opens every parameter list: `token:` followed by the
/// shared secret, if one is configured.
pub open spec fn token_text(secret: Option<String>) -> Seq<char> {
    match secret {
        Some(s) => "token:"@ + s@,
        None => "token:"@,
    }
}

/// The request of an operation with the given parameters, sent by the
/// client with identifier `ua`.
pub open spec fn call_of(ua: Seq<char>, m: JsonRPCMethod, params: Seq<ParamView>) -> JsonRPCView {
    JsonRPCView { jsonrpc: "2.0"@, method: m, id: Some(ua), params }
}

/// The parameters of an add-uri call.
pub open spec fn add_uri_params(secret: Option<String>, uri: Seq<char>) -> Seq<ParamView> {
    seq![ParamView::Text(token_text(secret)), ParamView::List(seq![uri])]
}

/// The parameters of a get-version call.
pub open spec fn get_version_params(secret: Option<String>) -> Seq<ParamView> {
    seq![ParamView::Text(token_text(secret))]
}

/// The parameters of a tell-status call, which asks for the `status` field
/// alone.
pub open spec fn tell_status_params(secret: Option<String>, gid: Seq<char>) -> Seq<ParamView> {
    seq![ParamView::Text(token_text(secret)), ParamView::Text(gid), ParamView::List(seq!["status"@])]
}

fn render_strings(v: &Vec<String>) -> (r: String)
    ensures
        r@ == "["@ + strings_text(texts_of(v@)) + "]"@,
        forall|k: int| 0 <= k < v@.len() ==> quotes_plainly(#[trigger] texts_of(v@)[k]),
{
    let mut out = String::from_str("[");
    let mut i: usize = 0;
    while i < v.len()
        invariant
            i <= v@.len(),
            out@ == "["@ + strings_text(texts_of(v@.subrange(0, i as int))),
            forall|k: int| 0 <= k < i ==> quotes_plainly(#[trigger] texts_of(v@)[k]),
        decreases v@.len() - i,
    {
        let q = quote(v[i].as_str());
        assert(quotes_plainly(texts_of(v@)[i as int]));
        proof {
            let pre = texts_of(v@.subrange(0, i as int));
            let next = texts_of(v@.subrange(0, i + 1));
            assert(next.drop_last() =~= pre);
            assert(next.last() == v@[i as int]@);
        }
        if i > 0 {
            out.append(",");
        }
        out.append(q.as_str());
        proof {
            if i == 0 {
                assert(texts_of(v@.subrange(0, 0)) =~= Seq::<Seq<char>>::empty());
            }
        }
        i += 1;
    }
    assert(v@.subrange(0, v@.len() as int) =~= v@);
    out.append("]");
    out
}

fn render_param(p: &Param) -> (r: String)
    ensures
        r@ == param_text(p@),
        param_quotes_plainly(p@),
{
    match p {
        Param::Text(s) => quote(s.as_str()),
        Param::List(v) => render_strings(v),
    }
}

fn render_params(v: &Vec<Param>) -> (r: String)
    ensures
        r@ == "["@ + params_text(params_of(v@)) + "]"@,
        forall|k: int| 0 <= k < v@.len() ==> param_quotes_plainly(#[trigger] params_of(v@)[k]),
{
    let mut out = String::from_str("[");
    let mut i: usize = 0;
    while i < v.len()
        invariant
            i <= v@.len(),
            out@ == "["@ + params_text(params_of(v@.subrange(0, i as int))),
            forall|k: int| 0 <= k < i ==> param_quotes_plainly(#[trigger] params_of(v@)[k]),
        decreases v@.len() - i,
    {
        let q = render_param(&v[i]);
        assert(param_quotes_plainly(params_of(v@)[i as int]));
        proof {
            let pre = params_of(v@.subrange(0, i as int));
            let next = params_of(v@.subrange(0, i + 1));
            assert(next.drop_last() =~= pre);
            assert(next.last() == v@[i as int]@);
        }
        if i > 0 {
            out.append(",");
        }
        out.append(q.as_str());
        proof {
            if i == 0 {
                assert(params_of(v@.subrange(0, 0)) =~= Seq::<ParamView>::empty());
            }
        }
        i += 1;
    }
    assert(v@.subrange(0, v@.len() as int) =~= v@);
    out.append("]");
    out
}


/// A JSON-RPC request to the daemon: always one operation with its
/// parameters. Requests are made by `JsonRPCBuilder`.
#[derive(Debug)]
pub struct JsonRPC {
    jsonrpc: String,
    method: JsonRPCMethod,
    id: Option<String>,
    params: Vec<Param>,
}

impl View for JsonRPC {
    type V = JsonRPCView;

    closed spec fn view(&self) -> JsonRPCView {
        JsonRPCView {
            jsonrpc: self.jsonrpc@,
            method: self.method,
            id: match self.id {
                Some(s) => Some(s@),
                None => None,
            },
            params: params_of(self.params@),
        }
    }
}

impl JsonRPC {
    fn new(ua: &str, method: JsonRPCMethod, params: Vec<Param>) -> (r: Self)
        ensures
            r@ == call_of(ua@, method, params_of(params@)),
    {
        let id = String::from_str(ua);
        JsonRPC { jsonrpc: String::from_str("2.0"), method, id: Some(id), params }
    }

    /// A builder for a request sent by the client with identifier `ua`.
    pub fn builder(ua: &str) -> (r: JsonRPCBuilder)
        ensures
            r.client_id() == ua@,
            r.chosen() is None,
            r.completions() == 0,
    {
        JsonRPCBuilder::new(ua)
    }

    /// The request serialized as compact JSON.
    pub fn to_string(&self) -> (r: String)
        ensures
            r@ == request_text(self@),
            quotes_plainly(method_name(self@.method)),
            forall|k: int| 0 <= k < self@.params.len() ==> param_quotes_plainly(#[trigger] self@.params[k]),
    {
        let mut out = String::from_str("{\"jsonrpc\":");
        let v = quote(self.jsonrpc.as_str());
        out.append(v.as_str());
        out.append(",\"method\":");
        let q = quote(self.method.name());
        out.append(q.as_str());
        out.append(",\"id\":");
        match &self.id {
            Some(id) => {
                let q = quote(id.as_str());
                out.append(q.as_str());
            },
            None => out.append("null"),
        }
        out.append(",\"params\":");
        let q = render_params(&self.params);
        out.append(q.as_str());
        out.append("}");
        out
    }

    /// The operation that the request calls.
    pub fn get_method(&self) -> (r: JsonRPCMethod)
        ensures
            r == self@.method,
    {
        self.method
    }
}

/// Accumulates one method call; `build` hands the request out when exactly
/// one operation was chosen.
#[derive(Debug)]
pub struct JsonRPCBuilder {
    ua: String,
    call: Option<(JsonRPCMethod, Vec<Param>)>,
    completions: u8,
}

impl JsonRPCBuilder {
    /// The identifier of the client that sends the request.
    pub closed spec fn client_id(&self) -> Seq<char> {
        self.ua@
    }

    /// The operation and parameters chosen last, if any.
    pub closed spec fn chosen(&self) -> Option<(JsonRPCMethod, Seq<ParamView>)> {
        match self.call {
            Some((m, p)) => Some((m, params_of(p@))),
            None => None,
        }
    }

    /// How many operations were chosen, counting up to two.
    pub closed spec fn completions(&self) -> nat {
        self.completions as nat
    }

    pub fn new(ua: &str) -> (r: Self)
        ensures
            r.client_id() == ua@,
            r.chosen() is None,
            r.completions() == 0,
    {
        Self { ua: String::from_str(ua), call: None, completions: 0 }
    }

    /// The request; fails with `JsonRPCNotReady` unless exactly one
    /// operation was chosen.
    pub fn build(self) -> (r: Result<JsonRPC, Error>)
        ensures
            r is Ok <==> self.completions() == 1 && self.chosen() is Some,
            r is Err ==> r == Err::<JsonRPC, Error>(Error::JsonRPCNotReady),
            r matches Ok(req) ==> (self.chosen() matches Some(c) && req@ == call_of(self.client_id(), c.0, c.1)),
    {
        if self.completions != 1 {
            return Err(Error::JsonRPCNotReady);
        }
        match self.call {
            Some((method, params)) => Ok(JsonRPC::new(self.ua.as_str(), method, params)),
            None => Err(Error::JsonRPCNotReady),
        }
    }

    fn parse_token(secret: Option<String>) -> (r: String)
        ensures
            r@ == token_text(secret),
    {
        match secret {
            Some(s) => {
                let mut t = String::from_str("token:");
                t.append(s.as_str());
                t
            },
            None => String::from_str("token:"),
        }
    }

    /// Chooses add-uri, which submits `uri` for download.
    pub fn aria2_add_uri(self, secret: Option<String>, uri: &str) -> (r: Self)
        ensures
            r.client_id() == self.client_id(),
            r.chosen() == Some((JsonRPCMethod::AddUri, add_uri_params(secret, uri@))),
            r.completions() == next_count(self.completions()),
    {
        let mut this = self;
        let token = Self::parse_token(secret);
        let uris = vec![String::from_str(uri)];
        let params = vec![Param::Text(token), Param::List(uris)];
        proof {
            assert(texts_of(uris@) =~= seq![uri@]);
            assert(params_of(params@) =~= add_uri_params(secret, uri@));
        }
        this.complete_method(JsonRPCMethod::AddUri, params);
        this
    }

    /// Chooses get-version, the connectivity probe.
    pub fn aria2_get_version(self, secret: Option<String>) -> (r: Self)
        ensures
            r.client_id() == self.client_id(),
            r.chosen() == Some((JsonRPCMethod::GetVersion, get_version_params(secret))),
            r.completions() == next_count(self.completions()),
    {
        let mut this = self;
        let token = Self::parse_token(secret);
        let params = vec![Param::Text(token)];
        proof {
            assert(params_of(params@) =~= get_version_params(secret));
        }
        this.complete_method(JsonRPCMethod::GetVersion, params);
        this
    }

    /// Chooses tell-status, which asks for the status of submission `gid`.
    pub fn aria2_tell_status(self, secret: Option<String>, gid: &str) -> (r: Self)
        ensures
            r.client_id() == self.client_id(),
            r.chosen() == Some((JsonRPCMethod::TellStatus, tell_status_params(secret, gid@))),
            r.completions() == next_count(self.completions()),
    {
        let mut this = self;
        let token = Self::parse_token(secret);
        let fields = vec![String::from_str("status")];
        let params = vec![Param::Text(token), Param::Text(String::from_str(gid)), Param::List(fields)];
        proof {
            assert(texts_of(fields@) =~= seq!["status"@]);
            assert(params_of(params@) =~= tell_status_params(secret, gid@));
        }
        this.complete_method(JsonRPCMethod::TellStatus, params);
        this
    }

    fn complete_method(&mut self, method: JsonRPCMethod, params: Vec<Param>)
        ensures
            final(self).client_id() == old(self).client_id(),
            final(self).chosen() == Some((method, params_of(params@))),
            final(self).completions() == next_count(old(self).completions()),
    {
        self.call = Some((method, params));
        if self.completions < 2 {
            self.completions = self.completions + 1;
        } else {
            self.completions = 2;
        }
    }
}

/// The count of chosen operations after one more, which stops at two.
pub open spec fn next_count(n: nat) -> nat {
    if n < 2 {
        n + 1
    } else {
        2
    }
}

/// A JSON value as the daemon sends it. Numbers that fit an `i64` are held
/// as integers; any other number as its JSON text.
#[derive(Debug)]
pub enum JsonValue {
    Null,
    Bool(bool),
    Int(i64),
    Number(String),
    Str(String),
    Array(Vec<JsonValue>),
    Object(Vec<(String, JsonValue)>),
}

/// The value of the first entry named `key`.
pub open spec fn entry_value(entries: Seq<(String, JsonValue)>, key: Seq<char>) -> Option<JsonValue>
    decreases entries.len(),
{
    if entries.len() == 0 {
        None
    } else if entries[0].0@ == key {
        Some(entries[0].1)
    } else {
        entry_value(entries.drop_first(), key)
    }
}

/// The field `key` of an object; nothing for any other value.
pub open spec fn json_get(v: JsonValue, key: Seq<char>) -> Option<JsonValue> {
    match v {
        JsonValue::Object(entries) => entry_value(entries@, key),
        _ => None,
    }
}

impl JsonValue {
    /// The field `key` of an object; `None` for any other value.
    pub fn get(&self, key: &str) -> (r: Option<&JsonValue>)
        ensures
            r is Some <==> json_get(*self, key@) is Some,
            r matches Some(v) ==> json_get(*self, key@) == Some(*v),
    {
        match self {
            JsonValue::Object(entries) => {
                let mut i: usize = 0;
                assert(entries@.subrange(0, entries@.len() as int) =~= entries@);
                while i < entries.len()
                    invariant
                        i <= entries@.len(),
                        json_get(*self, key@) == entry_value(entries@, key@),
                        entry_value(entries@, key@) == entry_value(entries@.subrange(i as int, entries@.len() as int), key@),
                    decreases entries@.len() - i,
                {
                    let ghost rest = entries@.subrange(i as int, entries@.len() as int);
                    assert(rest.drop_first() =~= entries@.subrange(i + 1, entries@.len() as int));
                    assert(rest[0] == entries@[i as int]);
                    if str_eq(entries[i].0.as_str(), key) {
                        assert(rest[0].0@ == key@);
                        assert(entry_value(rest, key@) == Some(rest[0].1));
                        return Some(&entries[i].1);
                    }
                    i += 1;
                }
                None
            },
            _ => None,
        }
    }
}

/// The character of a decimal digit.
pub open spec fn digit_char(d: int) -> char {
    if d == 0 {
        '0'
    } else if d == 1 {
        '1'
    } else if d == 2 {
        '2'
    } else if d == 3 {
        '3'
    } else if d == 4 {
        '4'
    } else if d == 5 {
        '5'
    } else if d == 6 {
        '6'
    } else if d == 7 {
        '7'
    } else if d == 8 {
        '8'
    } else {
        '9'
    }
}

/// The decimal digits of `n`, with no leading zero.
pub open spec fn nat_text(n: nat) -> Seq<char>
    decreases n,
{
    if n < 10 {
        seq![digit_char(n as int)]
    } else {
        nat_text(n / 10) + seq![digit_char((n % 10) as int)]
    }
}

/// The decimal text of an integer, with a leading `-` when it is negative.
pub open spec fn int_text(i: int) -> Seq<char> {
    if i < 0 {
        seq!['-'] + nat_text((-i) as nat)
    } else {
        nat_text(i as nat)
    }
}

/// The compact JSON text of a value: strings quoted as serde_json quotes
/// them, numbers in decimal (or as their held text), arrays and objects
/// with their items separated by commas and each key quoted.
pub open spec fn json_text(v: JsonValue) -> Seq<char>
    decreases v, 0int,
{
    match v {
        JsonValue::Null => "null"@,
        JsonValue::Bool(b) => if b {
            "true"@
        } else {
            "false"@
        },
        JsonValue::Int(i) => int_text(i as int),
        JsonValue::Number(t) => t@,
        JsonValue::Str(s) => json_quoted(s@),
        JsonValue::Array(items) => "["@ + items_text(items@, items@.len() as int) + "]"@,
        JsonValue::Object(entries) => "{"@ + entries_text(entries@, entries@.len() as int) + "}"@,
    }
}

/// The texts of the first `n` items, separated by commas.
pub open spec fn items_text(items: Seq<JsonValue>, n: int) -> Seq<char>
    decreases items, n,
{
    if n <= 0 || n > items.len() {
        Seq::empty()
    } else if n == 1 {
        json_text(items[0])
    } else {
        items_text(items, n - 1) + ","@ + json_text(items[n - 1])
    }
}

/// The texts of the first `n` entries, each as quoted key, `:` and value,
/// separated by commas.
pub open spec fn entries_text(entries: Seq<(String, JsonValue)>, n: int) -> Seq<char>
    decreases entries, n,
{
    if n <= 0 || n > entries.len() {
        Seq::empty()
    } else if n == 1 {
        json_quoted(entries[0].0@) + ":"@ + json_text(entries[0].1)
    } else {
        entries_text(entries, n - 1) + ","@ + json_quoted(entries[n - 1].0@) + ":"@ + json_text(entries[n - 1].1)
    }
}

fn digit_text(d: u64) -> (r: &'static str)
    requires
        d < 10,
    ensures
        r@ == seq![digit_char(d as int)],
{
    if d == 0 {
        proof { reveal_strlit("0"); assert("0"@ =~= seq!['0']); }
        "0"
    } else if d == 1 {
        proof { reveal_strlit("1"); assert("1"@ =~= seq!['1']); }
        "1"
    } else if d == 2 {
        proof { reveal_strlit("2"); assert("2"@ =~= seq!['2']); }
        "2"
    } else if d == 3 {
        proof { reveal_strlit("3"); assert("3"@ =~= seq!['3']); }
        "3"
    } else if d == 4 {
        proof { reveal_strlit("4"); assert("4"@ =~= seq!['4']); }
        "4"
    } else if d == 5 {
        proof { reveal_strlit("5"); assert("5"@ =~= seq!['5']); }
        "5"
    } else if d == 6 {
        proof { reveal_strlit("6"); assert("6"@ =~= seq!['6']); }
        "6"
    } else if d == 7 {
        proof { reveal_strlit("7"); assert("7"@ =~= seq!['7']); }
        "7"
    } else if d == 8 {
        proof { reveal_strlit("8"); assert("8"@ =~= seq!['8']); }
        "8"
    } else {
        proof { reveal_strlit("9"); assert("9"@ =~= seq!['9']); }
        "9"
    }
}

fn nat_decimal(n: u64) -> (r: String)
    ensures
        r@ == nat_text(n as nat),
    decreases n,
{
    if n < 10 {
        String::from_str(digit_text(n))
    } else {
        let mut s = nat_decimal(n / 10);
        s.append(digit_text(n % 10));
        s
    }
}

fn int_decimal(i: i64) -> (r: String)
    ensures
        r@ == int_text(i as int),
{
    if i < 0 {
        let m: u64 = if i == i64::MIN {
            9223372036854775808u64
        } else {
            (-i) as u64
        };
        let mut s = String::from_str("-");
        proof {
            reveal_strlit("-");
            assert("-"@ =~= seq!['-']);
        }
        let digits = nat_decimal(m);
        s.append(digits.as_str());
        s
    } else {
        nat_decimal(i as u64)
    }
}

impl JsonValue {
    /// The compact JSON text of the value.
    pub fn to_json_text(&self) -> (r: String)
        ensures
            r@ == json_text(*self),
        decreases self,
    {
        match self {
            JsonValue::Null => String::from_str("null"),
            JsonValue::Bool(b) => if *b {
                String::from_str("true")
            } else {
                String::from_str("false")
            },
            JsonValue::Int(i) => int_decimal(*i),
            JsonValue::Number(t) => t.clone(),
            JsonValue::Str(s) => quote(s.as_str()),
            JsonValue::Array(items) => {
                let mut out = String::from_str("[");
                let mut i: usize = 0;
                while i < items.len()
                    invariant
                        i <= items@.len(),
                        *self == JsonValue::Array(*items),
                        out@ == "["@ + items_text(items@, i as int),
                    decreases items@.len() - i,
                {
                    proof {
                        vstd::std_specs::vec::axiom_vec_index_decreases(*items, i as int);
                        assert(decreases_to!(*self => (*self)->Array_0));
                        assert(decreases_to!(*self => items@[i as int]));
                    }
                    let t = items[i].to_json_text();
                    if i > 0 {
                        out.append(",");
                    }
                    out.append(t.as_str());
                    i += 1;
                }
                out.append("]");
                out
            },
            JsonValue::Object(entries) => {
                let mut out = String::from_str("{");
                let mut i: usize = 0;
                while i < entries.len()
                    invariant
                        i <= entries@.len(),
                        *self == JsonValue::Object(*entries),
                        out@ == "{"@ + entries_text(entries@, i as int),
                    decreases entries@.len() - i,
                {
                    proof {
                        vstd::std_specs::vec::axiom_vec_index_decreases(*entries, i as int);
                        assert(decreases_to!(*self => (*self)->Object_0));
                        assert(decreases_to!(entries@[i as int] => entries@[i as int].1));
                        assert(decreases_to!(*self => entries@[i as int].1));
                    }
                    let k = quote(entries[i].0.as_str());
                    let t = entries[i].1.to_json_text();
                    if i > 0 {
                        out.append(",");
                    }
                    out.append(k.as_str());
                    out.append(":");
                    out.append(t.as_str());
                    i += 1;
                }
                out.append("}");
                out
            },
        }
    }
}

/// A daemon response together with the operation whose request it answers.
pub struct JsonRPCResponse {
    pub value: JsonValue,
    pub method: JsonRPCMethod,
}

/// The one field that a successful response yields for each operation:
/// get-version its `version` as JSON text, add-uri the submission handle
/// that the result holds, tell-status its `status` string as sent (any
/// other value as JSON text).
pub open spec fn result_entry(result: JsonValue, method: JsonRPCMethod) -> Result<(Seq<char>, Seq<char>), JsonRPCError> {
    match method {
        JsonRPCMethod::GetVersion => match json_get(result, "version"@) {
            Some(v) => Ok(("version"@, json_text(v))),
            None => Err(JsonRPCError::NotStandardResponse),
        },
        JsonRPCMethod::AddUri => match result {
            JsonValue::Str(g) => Ok(("gid"@, g@)),
            _ => Err(JsonRPCError::NotStandardResponse),
        },
        JsonRPCMethod::TellStatus => match json_get(result, "status"@) {
            Some(JsonValue::Str(st)) => Ok(("status"@, st@)),
            Some(v) => Ok(("status"@, json_text(v))),
            None => Err(JsonRPCError::NotStandardResponse),
        },
    }
}

/// What a response means: a daemon error mapped from its numeric code, else
/// the field of the result that the operation asks for, else
/// `NotStandardResponse`.
pub open spec fn response_outcome(value: JsonValue, method: JsonRPCMethod) -> Result<(Seq<char>, Seq<char>), JsonRPCError> {
    match json_get(value, "error"@) {
        Some(err) => match json_get(err, "code"@) {
            Some(JsonValue::Int(code)) => Err(error_of_code(code as int)),
            _ => Err(JsonRPCError::NotStandardResponse),
        },
        None => match json_get(value, "result"@) {
            Some(result) => result_entry(result, method),
            None => Err(JsonRPCError::NotStandardResponse),
        },
    }
}

/// The outcome with the entry's strings as their characters.
pub open spec fn outcome_view(r: Result<(String, String), JsonRPCError>) -> Result<(Seq<char>, Seq<char>), JsonRPCError> {
    match r {
        Ok((k, v)) => Ok((k@, v@)),
        Err(e) => Err(e),
    }
}

impl JsonRPCResponse {
    /// Interprets the response: a carried `error` object fails with the
    /// error its code stands for; else a carried `result` yields the single
    /// entry that the operation asks for; else, or when the expected field
    /// is missing, fails with `NotStandardResponse`.
    pub fn unwrap_response(self) -> (r: Result<(String, String), JsonRPCError>)
        ensures
            outcome_view(r) == response_outcome(self.value, self.method),
    {
        if let Some(v) = self.value.get("error") {
            return match v.get("code") {
                Some(JsonValue::Int(code)) => Err(JsonRPCError::from_code(*code)),
                _ => Err(JsonRPCError::NotStandardResponse),
            };
        }
        if let Some(v) = self.value.get("result") {
            return match self.method {
                JsonRPCMethod::GetVersion => match v.get("version") {
                    Some(version) => Ok((String::from_str("version"), version.to_json_text())),
                    None => Err(JsonRPCError::NotStandardResponse),
                },
                JsonRPCMethod::AddUri => match v {
                    JsonValue::Str(gid) => Ok((String::from_str("gid"), gid.clone())),
                    _ => Err(JsonRPCError::NotStandardResponse),
                },
                JsonRPCMethod::TellStatus => match v.get("status") {
                    Some(JsonValue::Str(status)) => Ok((String::from_str("status"), status.clone())),
                    Some(status) => Ok((String::from_str("status"), status.to_json_text())),
                    None => Err(JsonRPCError::NotStandardResponse),
                },
            };
        }
        Err(JsonRPCError::NotStandardResponse)
    }
}

} // verus!

//! What every provider client shares: network options, secrets, and the
//! choice of the client that serves the selected model.

use crate::client::model_info::ModelInfo;
use crate::utils::number::{decimal_of, to_decimal};
use vstd::prelude::*;

verus! {

/// `str::to_ascii_uppercase` gives a copy of the text in which each ASCII
/// letter `a` to `z` is replaced by its upper-case letter and every other
/// character is kept.
pub assume_specification[ str::to_ascii_uppercase ](text: &str) -> (upper: String)
    ensures
        upper@ == ascii_uppercase(text@),
;

/// The upper-case letter of an ASCII lower-case letter; any other character
/// itself.
pub open spec fn ascii_upper(c: char) -> char {
    if 'a' <= c && c <= 'z' {
        ((c as int) - 32) as char
    } else {
        c
    }
}

/// The text with each character replaced by `ascii_upper` of it.
pub open spec fn ascii_uppercase(text: Seq<char>) -> Seq<char> {
    text.map_values(|c: char| ascii_upper(c))
}

/// `reqwest::Proxy`: a proxy as the transport takes it. Of what it holds
/// only this is known: which text it was made of (`proxy_made_of`).
#[verifier::external_type_specification]
#[verifier::external_body]
pub struct ExProxy(reqwest::Proxy);

/// `reqwest::Error`: why the transport refused something. Nothing is known of
/// what it holds.
#[verifier::external_type_specification]
#[verifier::external_body]
pub struct ExReqwestError(reqwest::Error);

/// `reqwest::ClientBuilder`: a transport in the making. Of what it holds
/// two things are known: the proxies added to it (`proxies_of`) and the
/// connection timeout set on it (`connect_timeout_of`).
#[verifier::external_type_specification]
#[verifier::external_body]
pub struct ExClientBuilder(reqwest::ClientBuilder);

/// `reqwest::Client`: the transport that requests are sent with. Nothing is
/// known of what it holds.
#[verifier::external_type_specification]
#[verifier::external_body]
pub struct ExReqwestClient(reqwest::Client);

/// The proxies that were added to a transport in the making, in the order
/// in which `reqwest::ClientBuilder::proxy` added them.
pub uninterp spec fn proxies_of(builder: reqwest::ClientBuilder) -> Seq<reqwest::Proxy>;

/// The whole seconds of the connection timeout that
/// `reqwest::ClientBuilder::connect_timeout` set on a transport in the
/// making; none where it was never set.
pub uninterp spec fn connect_timeout_of(builder: reqwest::ClientBuilder) -> Option<u64>;

/// Calls `reqwest::Client::builder`, which starts a transport with no proxy
/// added and no connection timeout set.
#[verifier::external_body]
fn new_builder() -> (builder: reqwest::ClientBuilder)
    ensures
        proxies_of(builder) == Seq::<reqwest::Proxy>::empty(),
        connect_timeout_of(builder) is None,
{
    reqwest::Client::builder()
}

/// Calls `reqwest::ClientBuilder::proxy`, which puts the proxy behind those
/// added before and leaves the connection timeout as it is.
#[verifier::external_body]
fn builder_proxy(builder: reqwest::ClientBuilder, proxy: reqwest::Proxy) -> (with_proxy:
    reqwest::ClientBuilder)
    ensures
        proxies_of(with_proxy) == proxies_of(builder).push(proxy),
        connect_timeout_of(with_proxy) == connect_timeout_of(builder),
{
    builder.proxy(proxy)
}

/// Calls `reqwest::ClientBuilder::connect_timeout`, which sets how long the
/// transport waits for a connection and leaves the proxies as they are.
#[verifier::external_body]
fn builder_connect_timeout(builder: reqwest::ClientBuilder, seconds: u64) -> (with_timeout:
    reqwest::ClientBuilder)
    ensures
        connect_timeout_of(with_timeout) == Some(seconds),
        proxies_of(with_timeout) == proxies_of(builder),
{
    builder.connect_timeout(std::time::Duration::from_secs(seconds))
}

/// Calls `reqwest::ClientBuilder::build`, which makes the transport or says
/// why it cannot. Which of the two depends on the machine.
#[verifier::external_body]
fn builder_build(builder: reqwest::ClientBuilder) -> (built: Result<
    reqwest::Client,
    reqwest::Error,
>) {
    builder.build()
}

/// The message of a `reqwest::Error`, as its `Display` writes it.
#[verifier::external_body]
fn error_text(error: &reqwest::Error) -> (text: String) {
    format!("{error}")
}

/// Whether `reqwest::Proxy::all` takes the text for the address of a proxy.
pub uninterp spec fn proxy_accepted(proxy: Seq<char>) -> bool;

/// The proxy that `reqwest::Proxy::all` makes of the text where it takes it
/// for the address of one.
pub uninterp spec fn proxy_made_of(proxy: Seq<char>) -> reqwest::Proxy;

/// Calls `reqwest::Proxy::all`, which reads the text as a URL, with `http://`
/// put before it where it has no scheme, and makes a proxy for all traffic
/// of it where the scheme is one it knows. Whether it does, and the proxy
/// that it makes, depend on the text alone.
#[verifier::external_body]
fn parse_proxy(proxy: &str) -> (parsed: Result<reqwest::Proxy, reqwest::Error>)
    ensures
        parsed is Ok <==> proxy_accepted(proxy@),
        parsed is Ok ==> parsed->Ok_0 == proxy_made_of(proxy@),
{
    reqwest::Proxy::all(proxy)
}

/// Network options of one client.
#[derive(Debug, Clone, PartialEq, Eq)]
pub struct ExtraConfig {
    /// The proxy to send requests through.
    pub proxy: Option<String>,
    /// Seconds to wait for a connection.
    pub connect_timeout: Option<u64>,
}

impl Default for ExtraConfig {
    /// No options.
    fn default() -> (options: Self)
        ensures
            options.proxy is None,
            options.connect_timeout is None,
    {
        ExtraConfig { proxy: None, connect_timeout: None }
    }
}

/// No registered client serves the selected model.
#[derive(Debug, Clone, PartialEq, Eq)]
pub struct NoSuchClient {
    /// The client that the model names.
    pub client: String,
    /// The model's position in the configured list of clients.
    pub index: usize,
}

/// A secret is neither configured nor in the environment.
#[derive(Debug, Clone, PartialEq, Eq)]
pub struct MissingCredential {
    /// The field of the client's configuration that holds the secret.
    pub field: String,
}

/// The proxy to use is not the address of one.
#[derive(Debug, Clone, PartialEq, Eq)]
pub struct InvalidProxy {
    /// The value that was to be the proxy.
    pub proxy: String,
    /// Why it was refused.
    pub cause: String,
}

/// A request failed on its way or at the provider.
#[derive(Debug, Clone, PartialEq, Eq)]
pub struct TransportFailure {
    /// What was being done.
    pub context: String,
    /// What went wrong.
    pub cause: String,
}

/// A failed request with its texts as sequences of characters.
pub struct TransportFailureView {
    pub context: Seq<char>,
    pub cause: Seq<char>,
}

impl View for TransportFailure {
    type V = TransportFailureView;

    open spec fn view(&self) -> TransportFailureView {
        TransportFailureView { context: self.context@, cause: self.cause@ }
    }
}

impl NoSuchClient {
    /// What the failure says of a client and a position.
    pub open spec fn spec_message(client: Seq<char>, index: nat) -> Seq<char> {
        "Unknown client "@ + client + " at config.clients["@ + decimal_of(index) + "]"@
    }

    /// What the failure says: the client and, in decimal, the position.
    pub fn message(&self) -> (text: String)
        ensures
            text@ == Self::spec_message(self.client@, self.index as nat),
    {
        let mut text = "Unknown client ".to_owned();
        text.append(self.client.as_str());
        text.append(" at config.clients[");
        text.append(to_decimal(self.index).as_str());
        text.append("]");
        text
    }
}

impl MissingCredential {
    /// What the failure says of a field.
    pub open spec fn spec_message(field: Seq<char>) -> Seq<char> {
        "Miss "@ + field
    }

    /// What the failure says: the field.
    pub fn message(&self) -> (text: String)
        ensures
            text@ == Self::spec_message(self.field@),
    {
        let mut text = "Miss ".to_owned();
        text.append(self.field.as_str());
        text
    }
}

impl InvalidProxy {
    /// What the failure says of an address.
    pub open spec fn spec_message(proxy: Seq<char>) -> Seq<char> {
        "Invalid proxy `"@ + proxy + "`"@
    }

    /// What the failure says: the address, between backticks.
    pub fn message(&self) -> (text: String)
        ensures
            text@ == Self::spec_message(self.proxy@),
    {
        let mut text = "Invalid proxy `".to_owned();
        text.append(self.proxy.as_str());
        text.append("`");
        text
    }
}

/// Seconds to wait for a connection where the options name none.
pub const DEFAULT_CONNECT_TIMEOUT: u64 = 10;

/// Seconds to wait for a connection: what the options say, else the default.
pub fn connect_timeout(options: &Option<ExtraConfig>) -> (seconds: u64)
    ensures
        seconds == timeout_of(*options),
{
    match options {
        Some(extra) => match extra.connect_timeout {
            Some(configured) => configured,
            None => DEFAULT_CONNECT_TIMEOUT,
        },
        None => DEFAULT_CONNECT_TIMEOUT,
    }
}

/// Whether a configured proxy value means that no proxy is wanted: the empty
/// text, `false` and `-` do.
pub open spec fn proxy_disabled(value: Seq<char>) -> bool {
    value.len() == 0 || value == seq!['f', 'a', 'l', 's', 'e'] || value == seq!['-']
}

/// The proxy to use. A configured value decides alone: it is the proxy,
/// unless it means that none is wanted. Without one the environment decides:
/// `HTTPS_PROXY` where it is set, else `ALL_PROXY`, else no proxy.
pub open spec fn chosen_proxy(
    configured: Option<Seq<char>>,
    https_proxy: Option<Seq<char>>,
    all_proxy: Option<Seq<char>>,
) -> Option<Seq<char>> {
    match configured {
        Some(value) => if proxy_disabled(value) {
            None
        } else {
            Some(value)
        },
        None => match https_proxy {
            Some(value) => Some(value),
            None => all_proxy,
        },
    }
}

/// The view of an optional text.
pub open spec fn text_of(value: Option<String>) -> Option<Seq<char>> {
    match value {
        Some(text) => Some(text@),
        None => None,
    }
}

/// Whether a configured proxy value means that no proxy is wanted.
fn is_proxy_disabled(value: &String) -> (disabled: bool)
    ensures
        disabled == proxy_disabled(value@),
{
    proof {
        reveal_strlit("");
        reveal_strlit("false");
        reveal_strlit("-");
        assert(""@ =~= Seq::<char>::empty());
        assert("false"@ =~= seq!['f', 'a', 'l', 's', 'e']);
        assert("-"@ =~= seq!['-']);
    }
    let disabled = *value == "".to_owned() || *value == "false".to_owned() || *value
        == "-".to_owned();
    proof {
        assert(value@.len() == 0 <==> value@ == Seq::<char>::empty()) by {
            if value@.len() == 0 {
                assert(value@ =~= Seq::<char>::empty());
            }
        }
    }
    disabled
}

/// The proxy to send requests through, if any, given the configured value
/// and the values of the environment variables `HTTPS_PROXY` and `ALL_PROXY`.
pub fn resolve_proxy(
    configured: &Option<String>,
    https_proxy: &Option<String>,
    all_proxy: &Option<String>,
) -> (proxy: Option<String>)
    ensures
        text_of(proxy) == chosen_proxy(
            text_of(*configured),
            text_of(*https_proxy),
            text_of(*all_proxy),
        ),
{
    match configured {
        Some(value) => {
            if is_proxy_disabled(value) {
                None
            } else {
                Some(value.clone())
            }
        },
        None => match https_proxy {
            Some(value) => Some(value.clone()),
            None => match all_proxy {
                Some(value) => Some(value.clone()),
                None => None,
            },
        },
    }
}

/// What becomes of a proxy's address once it was read: the proxy, or the
/// failure that names the address and keeps the reason.
pub fn checked_proxy(proxy: String, parsed: Result<reqwest::Proxy, reqwest::Error>) -> (checked:
    Result<reqwest::Proxy, InvalidProxy>)
    ensures
        match parsed {
            Ok(made) => checked == Ok::<reqwest::Proxy, InvalidProxy>(made),
            Err(_) => checked is Err && checked->Err_0.proxy == proxy,
        },
{
    match parsed {
        Ok(made) => Ok(made),
        Err(error) => Err(InvalidProxy { proxy, cause: error_text(&error) }),
    }
}

/// The proxy to send requests through, if any, given the configured value
/// and the values of the environment variables `HTTPS_PROXY` and `ALL_PROXY`:
/// the proxy made of the chosen address. Where that address is not accepted,
/// the failure names it.
pub fn set_proxy(
    configured: &Option<String>,
    https_proxy: &Option<String>,
    all_proxy: &Option<String>,
) -> (proxy: Result<Option<reqwest::Proxy>, InvalidProxy>)
    ensures
        match chosen_proxy(text_of(*configured), text_of(*https_proxy), text_of(*all_proxy)) {
            None => proxy == Ok::<Option<reqwest::Proxy>, InvalidProxy>(None),
            Some(address) => if proxy_accepted(address) {
                proxy == Ok::<Option<reqwest::Proxy>, InvalidProxy>(Some(proxy_made_of(address)))
            } else {
                proxy is Err && proxy->Err_0.proxy@ == address
            },
        },
{
    match resolve_proxy(configured, https_proxy, all_proxy) {
        None => Ok(None),
        Some(address) => {
            let parsed = parse_proxy(address.as_str());
            match checked_proxy(address, parsed) {
                Ok(made) => Ok(Some(made)),
                Err(invalid) => Err(invalid),
            }
        },
    }
}

/// What a client's transport is built with.
#[derive(Debug)]
pub struct ClientOptions {
    /// Seconds to wait for a connection.
    pub connect_timeout: u64,
    /// The proxy to send requests through, if any.
    pub proxy: Option<reqwest::Proxy>,
}

/// The proxy that the options configure, if they configure one.
pub open spec fn configured_proxy(options: Option<ExtraConfig>) -> Option<Seq<char>> {
    match options {
        Some(extra) => text_of(extra.proxy),
        None => None,
    }
}

/// The connection timeout that the options ask for, the default where they
/// ask for none.
pub open spec fn timeout_of(options: Option<ExtraConfig>) -> u64 {
    match options {
        Some(extra) => match extra.connect_timeout {
            Some(configured) => configured,
            None => DEFAULT_CONNECT_TIMEOUT,
        },
        None => DEFAULT_CONNECT_TIMEOUT,
    }
}

/// What to build a client's transport with, given its network options and
/// the values of the environment variables `HTTPS_PROXY` and `ALL_PROXY`:
/// the connection timeout, and the proxy where one is to be used. Where the
/// proxy's address is not accepted, the failure names the address.
pub fn client_options(
    options: &Option<ExtraConfig>,
    https_proxy: &Option<String>,
    all_proxy: &Option<String>,
) -> (built: Result<ClientOptions, InvalidProxy>)
    ensures
        match chosen_proxy(configured_proxy(*options), text_of(*https_proxy), text_of(*all_proxy)) {
            None => built is Ok && built->Ok_0.proxy is None,
            Some(address) => if proxy_accepted(address) {
                built is Ok && built->Ok_0.proxy == Some(proxy_made_of(address))
            } else {
                built is Err && built->Err_0.proxy@ == address
            },
        },
        built is Ok ==> built->Ok_0.connect_timeout == timeout_of(*options),
{
    let connect_timeout = connect_timeout(options);
    let proxy = match options {
        Some(extra) => set_proxy(&extra.proxy, https_proxy, all_proxy),
        None => set_proxy(&None, https_proxy, all_proxy),
    };
    match proxy {
        Ok(proxy) => Ok(ClientOptions { connect_timeout, proxy }),
        Err(invalid) => Err(invalid),
    }
}

/// Why a client's transport could not be built.
#[derive(Debug, Clone, PartialEq, Eq)]
pub enum BuildFailure {
    /// The proxy to use is not the address of one.
    InvalidProxy(InvalidProxy),
    /// The transport could not be made.
    Transport(TransportFailure),
}

/// What building a transport was doing when it failed.
pub open spec fn build_context() -> Seq<char> {
    "Failed to build client"@
}

/// What becomes of a transport once it was made or refused: the transport,
/// or the failure with its context.
pub fn built_client(made: Result<reqwest::Client, reqwest::Error>) -> (built: Result<
    reqwest::Client,
    BuildFailure,
>)
    ensures
        match made {
            Ok(client) => built == Ok::<reqwest::Client, BuildFailure>(client),
            Err(_) => built matches Err(BuildFailure::Transport(failure)) && failure.context@
                == build_context(),
        },
{
    match made {
        Ok(client) => Ok(client),
        Err(error) => {
            Err(
                BuildFailure::Transport(
                    TransportFailure {
                        context: "Failed to build client".to_owned(),
                        cause: error_text(&error),
                    },
                ),
            )
        },
    }
}

/// The proxies that a transport is to use: the one made of the chosen
/// address, or none.
pub open spec fn chosen_proxies(address: Option<Seq<char>>) -> Seq<reqwest::Proxy> {
    match address {
        Some(text) => seq![proxy_made_of(text)],
        None => Seq::empty(),
    }
}

/// Starts the transport of a client from its network options and the values
/// of the environment variables `HTTPS_PROXY` and `ALL_PROXY`: with the proxy
/// made of the chosen address where there is one, and with the connection
/// timeout. Where the address is not accepted, the failure names it.
pub fn client_builder(
    options: &Option<ExtraConfig>,
    https_proxy: &Option<String>,
    all_proxy: &Option<String>,
) -> (started: Result<reqwest::ClientBuilder, InvalidProxy>)
    ensures
        match chosen_proxy(configured_proxy(*options), text_of(*https_proxy), text_of(*all_proxy)) {
            Some(address) if !proxy_accepted(address) => started is Err && started->Err_0.proxy@
                == address,
            chosen => {
                &&& started is Ok
                &&& proxies_of(started->Ok_0) == chosen_proxies(chosen)
                &&& connect_timeout_of(started->Ok_0) == Some(timeout_of(*options))
            },
        },
{
    let options = match client_options(options, https_proxy, all_proxy) {
        Ok(options) => options,
        Err(invalid) => {
            return Err(invalid);
        },
    };
    let mut builder = new_builder();
    match options.proxy {
        Some(proxy) => {
            builder = builder_proxy(builder, proxy);
        },
        None => {},
    }
    Ok(builder_connect_timeout(builder, options.connect_timeout))
}

/// Builds the transport of a client from its network options and the values
/// of the environment variables `HTTPS_PROXY` and `ALL_PROXY`, out of what
/// `client_builder` starts. Where the proxy's address is not accepted, the
/// failure names the address and nothing is built.
pub fn build_client(
    options: &Option<ExtraConfig>,
    https_proxy: &Option<String>,
    all_proxy: &Option<String>,
) -> (built: Result<reqwest::Client, BuildFailure>)
    ensures
        match chosen_proxy(configured_proxy(*options), text_of(*https_proxy), text_of(*all_proxy)) {
            Some(address) if !proxy_accepted(address) => built matches Err(
                BuildFailure::InvalidProxy(invalid),
            ) && invalid.proxy@ == address,
            _ => match built {
                Ok(_) => true,
                Err(BuildFailure::Transport(failure)) => failure.context@ == build_context(),
                Err(BuildFailure::InvalidProxy(_)) => false,
            },
        },
{
    match client_builder(options, https_proxy, all_proxy) {
        Ok(builder) => built_client(builder_build(builder)),
        Err(invalid) => Err(BuildFailure::InvalidProxy(invalid)),
    }
}

/// The name that a client goes by: the configured one, else the name of its
/// kind.
pub fn client_name(configured: &Option<String>, kind_name: &str) -> (name: String)
    ensures
        name@ == match configured {
            Some(given) => given@,
            None => kind_name@,
        },
{
    match configured {
        Some(given) => given.clone(),
        None => kind_name.to_owned(),
    }
}

/// Name of the environment variable that may hold a client's secret: the
/// client's name, an underscore and the field's name, in upper case.
pub fn secret_env_name(client_name: &str, field: &str) -> (name: String)
    ensures
        name@ == ascii_uppercase(client_name@.push('_') + field@),
{
    let mut joined = client_name.to_owned();
    joined.push('_');
    joined.append(field);
    joined.as_str().to_ascii_uppercase()
}

/// A client's secret: the configured value, else the value of its
/// environment variable, else the failure that names the field.
pub fn resolve_secret(
    configured: &Option<String>,
    from_environment: &Option<String>,
    field: &str,
) -> (secret: Result<String, MissingCredential>)
    ensures
        match secret {
            Ok(value) => match configured {
                Some(given) => value@ == given@,
                None => from_environment is Some && value@ == from_environment->0@,
            },
            Err(missing) => configured is None && from_environment is None && missing.field@
                == field@,
        },
{
    match configured {
        Some(given) => Ok(given.clone()),
        None => match from_environment {
            Some(found) => Ok(found.clone()),
            None => Err(MissingCredential { field: field.to_owned() }),
        },
    }
}

/// Whether row `row` of the registry is the first whose kind is `kind`.
pub open spec fn is_first_match(registry: Seq<String>, kind: Seq<char>, row: int) -> bool {
    &&& 0 <= row < registry.len()
    &&& registry[row]@ == kind
    &&& forall|earlier: int| 0 <= earlier < row ==> (#[trigger] registry[earlier])@ != kind
}

/// Whether no row of the registry has the kind `kind`.
pub open spec fn no_match(registry: Seq<String>, kind: Seq<char>) -> bool {
    forall|row: int| 0 <= row < registry.len() ==> (#[trigger] registry[row])@ != kind
}

/// Chooses the client that serves the selected model. `registry` holds the
/// kinds of client that exist, in their fixed order; `configured_kinds` holds
/// the kind of each configured client. The registry is walked in order, and
/// the first row whose kind is that of the configured client at the model's
/// position is chosen. When the position names no configured client, or one
/// of a kind that no row has, the failure names the model's client and
/// position.
pub fn init_client(
    registry: &Vec<String>,
    configured_kinds: &Vec<String>,
    model: &ModelInfo,
) -> (chosen: Result<usize, NoSuchClient>)
    ensures
        match chosen {
            Ok(row) => {
                &&& model.index < configured_kinds.len()
                &&& is_first_match(registry@, configured_kinds[model.index as int]@, row as int)
            },
            Err(failure) => {
                &&& model.index < configured_kinds.len() ==> no_match(
                    registry@,
                    configured_kinds[model.index as int]@,
                )
                &&& failure.client@ == model.client@
                &&& failure.index == model.index
            },
        },
{
    if model.index < configured_kinds.len() {
        let kind = &configured_kinds[model.index];
        let mut row: usize = 0;
        while row < registry.len()
            invariant
                row <= registry.len(),
                model.index < configured_kinds.len(),
                *kind == configured_kinds@[model.index as int],
                forall|earlier: int| 0 <= earlier < row ==> (#[trigger] registry@[earlier])@ != kind@,
            decreases registry.len() - row,
        {
            if registry[row] == *kind {
                return Ok(row);
            }
            row = row + 1;
        }
    }
    Err(NoSuchClient { client: model.client.clone(), index: model.index })
}

/// What a request was doing when it failed to bring an answer.
pub open spec fn answer_context() -> Seq<char> {
    "failed to get answer"@
}

/// The failure of a request for an answer, from what went wrong.
pub fn answer_failure(cause: String) -> (failure: TransportFailure)
    ensures
        failure.context@ == answer_context(),
        failure.cause@ == cause@,
{
    TransportFailure { context: "failed to get answer".to_owned(), cause }
}

/// The answer of a request sent once: the reply as it came, or the failure
/// with its context.
pub fn answer_of(exchange: Result<String, String>) -> (answer: Result<String, TransportFailure>)
    ensures
        match exchange {
            Ok(reply) => answer is Ok && answer->Ok_0@ == reply@,
            Err(cause) => answer is Err && answer->Err_0@ == (TransportFailureView {
                context: answer_context(),
                cause: cause@,
            }),
        },
{
    match exchange {
        Ok(reply) => Ok(reply),
        Err(cause) => Err(answer_failure(cause)),
    }
}

} // verus!

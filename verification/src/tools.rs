//! The Birdeye operations as agent tools: each has a name, a description in
//! natural language, a typed parameter list, and a rule that repackages what
//! was fetched.

use crate::call::{ApiError, RequestParams};
use std::sync::Arc;
use vstd::prelude::*;
use vstd::string::StringExecFns;

verus! {

/// The type of a tool parameter.
#[derive(Clone, Copy, Debug, PartialEq, Eq, Structural)]
pub enum ParameterKind {
    /// A string.
    Text,
}

/// One named parameter of a tool.
#[derive(Debug)]
pub struct Parameter {
    /// The parameter's name.
    pub name: String,
    /// The parameter's type.
    pub kind: ParameterKind,
}

/// How a tool presents itself to the agent runtime.
#[derive(Debug)]
pub struct ToolDefinition {
    /// The tool's name.
    pub name: String,
    /// What the tool does, in natural language.
    pub description: String,
    /// The tool's parameters, in declaration order.
    pub parameters: Vec<Parameter>,
}

/// A tool definition as plain values.
pub struct ToolDefinitionView {
    pub name: Seq<char>,
    pub description: Seq<char>,
    pub parameters: Seq<(Seq<char>, ParameterKind)>,
}

impl View for ToolDefinition {
    type V = ToolDefinitionView;

    open spec fn view(&self) -> ToolDefinitionView {
        ToolDefinitionView {
            name: self.name@,
            description: self.description@,
            parameters: Seq::new(
                self.parameters@.len(),
                |i: int| (self.parameters@[i].name@, self.parameters@[i].kind),
            ),
        }
    }
}

/// The parameter list of a tool that takes a token address and nothing else.
pub open spec fn address_parameter() -> Seq<(Seq<char>, ParameterKind)> {
    seq![("address"@, ParameterKind::Text)]
}

/// The query of a tool that takes a token address and nothing else.
pub open spec fn address_query(address: Seq<char>) -> Seq<(Seq<char>, Seq<char>)> {
    seq![("address"@, address)]
}

/// Builds the definition of a tool whose only parameter is a token address.
fn address_tool(name: &str, description: &str) -> (definition: ToolDefinition)
    ensures
        definition@ == (ToolDefinitionView {
            name: name@,
            description: description@,
            parameters: address_parameter(),
        }),
{
    let mut parameters: Vec<Parameter> = Vec::new();
    parameters.push(Parameter { name: String::from_str("address"), kind: ParameterKind::Text });
    let definition = ToolDefinition {
        name: String::from_str(name),
        description: String::from_str(description),
        parameters,
    };
    assert(definition@.parameters =~= address_parameter());
    definition
}

/// Serializes a token address as the single pair `address`.
fn address_pairs(address: &String) -> (pairs: Vec<(String, String)>)
    ensures
        pairs.deep_view() == address_query(address@),
{
    let mut pairs: Vec<(String, String)> = Vec::new();
    pairs.push((String::from_str("address"), address.clone()));
    assert(pairs.deep_view() =~= address_query(address@));
    pairs
}

/// Arguments of the market-data tool.
#[derive(Debug)]
pub struct MarketDataArgs {
    /// Address of the token.
    pub address: String,
}

impl RequestParams for MarketDataArgs {
    open spec fn query_pairs(&self) -> Seq<(Seq<char>, Seq<char>)> {
        address_query(self.address@)
    }

    fn query(&self) -> (pairs: Vec<(String, String)>) {
        address_pairs(&self.address)
    }
}

/// What the market-data tool returns: the provider's response, as fetched.
#[derive(Debug)]
pub struct MarketDataOutput<R> {
    pub data: R,
}

/// The one error of the market-data tool.
#[derive(Clone, Copy, Debug, PartialEq, Eq, Structural)]
pub struct MarketDataError;

impl MarketDataError {
    /// The error's message.
    pub fn message(&self) -> (text: &'static str)
        ensures
            text@ == "MarketData error"@,
    {
        "MarketData error"
    }
}

/// The name under which the market-data tool is registered.
pub const MARKET_DATA_NAME: &'static str = "get_market_data";

/// The market-data tool's description.
pub const MARKET_DATA_DESCRIPTION: &'static str = "Get market data of single token by birdeye api";

/// The market-data tool, bound to the agent on whose behalf it fetches.
pub struct MarketData<A> {
    agent: Arc<A>,
}

impl<A> MarketData<A> {
    /// The agent that the tool is bound to.
    pub closed spec fn bound_agent(&self) -> Arc<A> {
        self.agent
    }

    /// Binds the tool to an agent.
    pub fn new(agent: Arc<A>) -> (tool: Self)
        ensures
            tool.bound_agent() == agent,
    {
        MarketData { agent }
    }

    /// The agent that the tool is bound to.
    pub fn agent(&self) -> (agent: &Arc<A>)
        ensures
            *agent == self.bound_agent(),
    {
        &self.agent
    }

    /// The tool's definition: its name, its description and the one
    /// parameter `address`, a string. The prompt does not change it.
    pub fn definition(&self, _prompt: String) -> (definition: ToolDefinition)
        ensures
            definition@ == (ToolDefinitionView {
                name: MARKET_DATA_NAME@,
                description: MARKET_DATA_DESCRIPTION@,
                parameters: address_parameter(),
            }),
    {
        address_tool(MARKET_DATA_NAME, MARKET_DATA_DESCRIPTION)
    }

    /// Concludes a call of the tool from what the fetch for the arguments'
    /// address gave: a fetched response is handed on unchanged as the
    /// output's `data`, and any failure of the fetch becomes the tool's error.
    pub fn call<R>(&self, fetched: Result<R, ApiError>) -> (result: Result<
        MarketDataOutput<R>,
        MarketDataError,
    >)
        ensures
            fetched matches Ok(data) ==> result == Ok::<MarketDataOutput<R>, MarketDataError>(
                MarketDataOutput { data },
            ),
            fetched is Err ==> result == Err::<MarketDataOutput<R>, MarketDataError>(
                MarketDataError,
            ),
    {
        match fetched {
            Ok(data) => Ok(MarketDataOutput { data }),
            Err(_) => Err(MarketDataError),
        }
    }
}

/// Arguments of the token-overview tool.
#[derive(Debug)]
pub struct TokenOverviewArgs {
    /// Address of the token.
    pub address: String,
}

impl RequestParams for TokenOverviewArgs {
    open spec fn query_pairs(&self) -> Seq<(Seq<char>, Seq<char>)> {
        address_query(self.address@)
    }

    fn query(&self) -> (pairs: Vec<(String, String)>) {
        address_pairs(&self.address)
    }
}

/// What the token-overview tool returns: the provider's response, as fetched.
#[derive(Debug)]
pub struct TokenOverviewOutput<R> {
    pub data: R,
}

/// The one error of the token-overview tool.
#[derive(Clone, Copy, Debug, PartialEq, Eq, Structural)]
pub struct TokenOverviewError;

impl TokenOverviewError {
    /// The error's message, which is the same text as the market-data
    /// tool's.
    pub fn message(&self) -> (text: &'static str)
        ensures
            text@ == "MarketData error"@,
    {
        "MarketData error"
    }
}

/// The name under which the token-overview tool is registered.
pub const TOKEN_OVERVIEW_NAME: &'static str = "get_token_overview";

/// The token-overview tool's description.
pub const TOKEN_OVERVIEW_DESCRIPTION: &'static str = "Get overview of a token by birdeye api";

/// The token-overview tool, bound to the agent on whose behalf it fetches.
pub struct TokenOverview<A> {
    agent: Arc<A>,
}

impl<A> TokenOverview<A> {
    /// The agent that the tool is bound to.
    pub closed spec fn bound_agent(&self) -> Arc<A> {
        self.agent
    }

    /// Binds the tool to an agent.
    pub fn new(agent: Arc<A>) -> (tool: Self)
        ensures
            tool.bound_agent() == agent,
    {
        TokenOverview { agent }
    }

    /// The agent that the tool is bound to.
    pub fn agent(&self) -> (agent: &Arc<A>)
        ensures
            *agent == self.bound_agent(),
    {
        &self.agent
    }

    /// The tool's definition: its name, its description and the one
    /// parameter `address`, a string. The prompt does not change it.
    pub fn definition(&self, _prompt: String) -> (definition: ToolDefinition)
        ensures
            definition@ == (ToolDefinitionView {
                name: TOKEN_OVERVIEW_NAME@,
                description: TOKEN_OVERVIEW_DESCRIPTION@,
                parameters: address_parameter(),
            }),
    {
        address_tool(TOKEN_OVERVIEW_NAME, TOKEN_OVERVIEW_DESCRIPTION)
    }

    /// Concludes a call of the tool from what the fetch for the arguments'
    /// address gave: a fetched response is handed on unchanged as the
    /// output's `data`, and any failure of the fetch becomes the tool's error.
    pub fn call<R>(&self, fetched: Result<R, ApiError>) -> (result: Result<
        TokenOverviewOutput<R>,
        TokenOverviewError,
    >)
        ensures
            fetched matches Ok(data) ==> result == Ok::<TokenOverviewOutput<R>, TokenOverviewError>(
                TokenOverviewOutput { data },
            ),
            fetched is Err ==> result == Err::<TokenOverviewOutput<R>, TokenOverviewError>(
                TokenOverviewError,
            ),
    {
        match fetched {
            Ok(data) => Ok(TokenOverviewOutput { data }),
            Err(_) => Err(TokenOverviewError),
        }
    }
}

} // verus!

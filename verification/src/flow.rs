//! Debug flows as values: a named diagram, what is listed of it, and the
//! answers that carry them.

use vstd::prelude::*;
use vstd::string::StringExecFns;
use crate::text::{dashed, json_file_name, lowercase_of, simple_name, to_kebab_case};

verus! {

/// `serde_json::Value`: a node or an edge of a diagram, whose shape is the
/// business of the front end.
#[verifier::external_type_specification]
#[verifier::external_body]
pub struct ExValue(serde_json::Value);

/// The state of a diagram.
#[derive(Debug)]
pub struct ReactFlowState {
    /// The nodes of the diagram.
    pub nodes: Vec<serde_json::Value>,
    /// The edges of the diagram.
    pub edges: Vec<serde_json::Value>,
}

impl ReactFlowState {
    /// The diagram without nodes and edges.
    pub fn new() -> (r: ReactFlowState)
        ensures
            r.nodes@.len() == 0,
            r.edges@.len() == 0,
    {
        ReactFlowState { nodes: Vec::new(), edges: Vec::new() }
    }
}

/// A debug flow: a name and a diagram.
#[derive(Debug)]
pub struct FlowData {
    /// Name of the debug flow.
    pub name: String,
    /// The diagram.
    pub reactflow: ReactFlowState,
}

impl FlowData {
    /// The debug flow of the given name with an empty diagram.
    pub fn new(name: &str) -> (r: FlowData)
        ensures
            r.name@ == name@,
            r.reactflow.nodes@.len() == 0,
            r.reactflow.edges@.len() == 0,
    {
        FlowData { name: String::from_str(name), reactflow: ReactFlowState::new() }
    }

    /// The id of the debug flow: its name in lower case with dashes.
    pub fn id(&self) -> (r: String)
        ensures
            r@ == dashed(lowercase_of(self.name@)),
    {
        to_kebab_case(self.name.as_str())
    }

    /// The name of the debug flow.
    pub fn name(&self) -> (r: String)
        ensures
            r@ == self.name@,
    {
        self.name.clone()
    }

    /// The name of the file that holds the debug flow of the given name:
    /// its id with the extension `json`.
    pub fn file_name_from_flow_name(name: &str) -> (r: String)
        ensures
            simple_name(dashed(lowercase_of(name@))) ==> r@ == dashed(lowercase_of(name@))
                + ".json"@,
    {
        let id = to_kebab_case(name);
        FlowData::file_name_from_id(id.as_str())
    }

    /// The name of the file that holds the debug flow of the given id:
    /// the id with the extension `json`.
    pub fn file_name_from_id(id: &str) -> (r: String)
        ensures
            simple_name(id@) ==> r@ == id@ + ".json"@,
    {
        json_file_name(id)
    }

    /// The number of nodes in the diagram.
    pub fn num_nodes(&self) -> (r: usize)
        ensures
            r == self.reactflow.nodes@.len(),
    {
        self.reactflow.nodes.len()
    }

    /// The number of edges in the diagram.
    pub fn num_edges(&self) -> (r: usize)
        ensures
            r == self.reactflow.edges@.len(),
    {
        self.reactflow.edges.len()
    }
}

/// What is listed of a debug flow.
#[derive(Debug, PartialEq, Eq)]
pub struct FlowMetadata {
    /// Id of the debug flow.
    pub id: String,
    /// Name of the debug flow.
    pub name: String,
    /// When the debug flow was last touched, in seconds since the epoch.
    pub last_modified_date: i64,
    /// Number of nodes in the debug flow.
    pub num_nodes: usize,
    /// Number of edges in the debug flow.
    pub num_edges: usize,
}

impl FlowMetadata {
    /// What is listed of a debug flow that was last touched at the given
    /// time.
    pub fn from_data_and_time(data: &FlowData, last_modified_date: i64) -> (r: FlowMetadata)
        ensures
            r.id@ == dashed(lowercase_of(data.name@)),
            r.name@ == data.name@,
            r.last_modified_date == last_modified_date,
            r.num_nodes == data.reactflow.nodes@.len(),
            r.num_edges == data.reactflow.edges@.len(),
    {
        FlowMetadata {
            id: data.id(),
            name: data.name(),
            last_modified_date,
            num_nodes: data.num_nodes(),
            num_edges: data.num_edges(),
        }
    }
}

/// The answer that lists the debug flows.
#[derive(Debug, PartialEq, Eq)]
pub struct ListFlowsResponse {
    pub flows: Vec<FlowMetadata>,
}

impl ListFlowsResponse {
    /// The answer that lists nothing.
    pub fn new() -> (r: ListFlowsResponse)
        ensures
            r.flows@.len() == 0,
    {
        ListFlowsResponse { flows: Vec::new() }
    }

    /// The answer that lists the given debug flows, in their order.
    pub fn from_metadatas(flows: Vec<FlowMetadata>) -> (r: ListFlowsResponse)
        ensures
            r.flows == flows,
    {
        let mut resp = ListFlowsResponse::new();
        resp.flows = flows;
        resp
    }
}

/// The answer to the creation of a debug flow.
#[derive(Debug, PartialEq, Eq)]
pub struct CreateFlowResponse {
    pub flow: FlowMetadata,
}

impl CreateFlowResponse {
    pub fn new(flow: FlowMetadata) -> (r: CreateFlowResponse)
        ensures
            r.flow == flow,
    {
        CreateFlowResponse { flow }
    }
}

/// A whole debug flow, as it is asked for and as it is stored.
#[derive(Debug)]
pub struct FullFlowRequestResponse {
    pub flow: FlowData,
}

impl FullFlowRequestResponse {
    pub fn new(flow: FlowData) -> (r: FullFlowRequestResponse)
        ensures
            r.flow == flow,
    {
        FullFlowRequestResponse { flow }
    }
}

} // verus!

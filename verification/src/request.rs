//! The execution request: what every node of a job is asked to run.

use crate::correlation::{lower_half, upper_half, uuid_to_uuidpb, CorrelationId, UuidPb};
use crate::registry::copy_names;
use vstd::prelude::*;

verus! {

/// The request message sent to an executor node.
#[derive(Debug, PartialEq, Eq)]
pub struct ExecutionRequest {
    /// The application to run.
    pub app_name: String,
    /// The instance of the application.
    pub app_uid: i64,
    /// The identifier shared by all calls of one logical request.
    pub correlation_id: UuidPb,
    /// Who asks; may be empty.
    pub client_id: String,
    /// The entry point to invoke.
    pub func_name: String,
    /// The inputs the node is to read.
    pub in_files: Vec<String>,
    /// The outputs the node is to produce.
    pub out_files: Vec<String>,
    /// The positional arguments.
    pub args: Vec<String>,
}

/// What a request says, field by field.
pub struct ExecutionRequestView {
    pub app_name: Seq<char>,
    pub app_uid: i64,
    pub correlation_id: UuidPb,
    pub client_id: Seq<char>,
    pub func_name: Seq<char>,
    pub in_files: Seq<Seq<char>>,
    pub out_files: Seq<Seq<char>>,
    pub args: Seq<Seq<char>>,
}

impl View for ExecutionRequest {
    type V = ExecutionRequestView;

    open spec fn view(&self) -> ExecutionRequestView {
        ExecutionRequestView {
            app_name: self.app_name@,
            app_uid: self.app_uid,
            correlation_id: self.correlation_id,
            client_id: self.client_id@,
            func_name: self.func_name@,
            in_files: self.in_files.deep_view(),
            out_files: self.out_files.deep_view(),
            args: self.args.deep_view(),
        }
    }
}

impl Clone for ExecutionRequest {
    /// A request that says the same, field by field.
    fn clone(&self) -> (copy: ExecutionRequest)
        ensures
            copy@ == self@,
    {
        ExecutionRequest {
            app_name: self.app_name.clone(),
            app_uid: self.app_uid,
            correlation_id: self.correlation_id,
            client_id: self.client_id.clone(),
            func_name: self.func_name.clone(),
            in_files: copy_names(&self.in_files),
            out_files: copy_names(&self.out_files),
            args: copy_names(&self.args),
        }
    }
}

impl ExecutionRequest {
    /// The request with the given payload, stamped with the given identifier.
    pub fn new(
        app_name: String,
        app_uid: i64,
        id: CorrelationId,
        client_id: String,
        func_name: String,
        in_files: Vec<String>,
        out_files: Vec<String>,
        args: Vec<String>,
    ) -> (request: ExecutionRequest)
        ensures
            request@ == (ExecutionRequestView {
                app_name: app_name@,
                app_uid: app_uid,
                correlation_id: UuidPb { hi: upper_half(id@), lo: lower_half(id@) },
                client_id: client_id@,
                func_name: func_name@,
                in_files: in_files.deep_view(),
                out_files: out_files.deep_view(),
                args: args.deep_view(),
            }),
    {
        ExecutionRequest {
            app_name,
            app_uid,
            correlation_id: uuid_to_uuidpb(id),
            client_id,
            func_name,
            in_files,
            out_files,
            args,
        }
    }

    /// One message per node: `nodes` requests that all say what this one says,
    /// the correlation identifier included.
    pub fn replicate(&self, nodes: usize) -> (messages: Vec<ExecutionRequest>)
        ensures
            messages@.len() == nodes,
            forall|i: int| 0 <= i < nodes ==> (#[trigger] messages@[i])@ == self@,
            forall|i: int|
                0 <= i < nodes ==> (#[trigger] messages@[i]).correlation_id == self.correlation_id,
    {
        let mut messages: Vec<ExecutionRequest> = Vec::new();
        let mut i: usize = 0;
        while i < nodes
            invariant
                i <= nodes,
                messages@.len() == i,
                forall|k: int| 0 <= k < i ==> (#[trigger] messages@[k])@ == self@,
            decreases nodes - i,
        {
            messages.push(self.clone());
            i = i + 1;
        }
        messages
    }
}

} // verus!

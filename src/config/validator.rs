use vstd::prelude::*;

use crate::node::{opt_path, copy_opt_path, BaseNode, BaseNodeView, Validator};
use crate::path_buffer::PathBuffer;
use crate::util::{copy_texts, texts};

verus! {

/// The validators of a configuration: one binary and dockerfile shared by
/// all, and the nodes.
#[derive(Debug)]
pub struct ValidatorConfig {
    pub bin: PathBuffer,
    pub dockerfile: Option<PathBuffer>,
    pub nodes: Vec<ValidatorNodeConfig>,
}

/// One validator node of a configuration.
#[derive(Debug)]
pub struct ValidatorNodeConfig {
    pub name: String,
    pub chain: PathBuffer,
    pub args: Vec<String>,
    pub port: u16,
    pub ws_port: u16,
    pub rpc_port: Option<u16>,
}

impl ValidatorNodeConfig {
    /// The descriptor of this node, run by `bin` and built by `dockerfile`.
    pub open spec fn node_view(self, bin: Seq<u8>, dockerfile: Option<Seq<u8>>) -> BaseNodeView {
        BaseNodeView {
            name: self.name@,
            bin,
            chain: self.chain@,
            dockerfile,
            args: texts(self.args@),
            port: self.port,
            ws_port: self.ws_port,
            rpc_port: self.rpc_port,
        }
    }

    pub fn base_node(&self, bin: &PathBuffer, dockerfile: &Option<PathBuffer>) -> (r: BaseNode)
        ensures
            r@ == self.node_view(bin@, opt_path(*dockerfile)),
    {
        BaseNode::new(
            self.name.clone(),
            bin.duplicate(),
            self.chain.duplicate(),
            copy_opt_path(dockerfile),
            copy_texts(&self.args),
            self.port,
            self.ws_port,
            self.rpc_port,
        )
    }
}

impl ValidatorConfig {
    /// The validator that the node at `i` describes.
    pub open spec fn validator_view(self, i: int) -> BaseNodeView {
        self.nodes@[i].node_view(self.bin@, opt_path(self.dockerfile))
    }

    /// The validators this configuration describes, in order.
    pub fn validators(&self) -> (r: Vec<Validator>)
        ensures
            r@.len() == self.nodes@.len(),
            forall|i: int| 0 <= i < r@.len() ==> (#[trigger] r@[i])@ == self.validator_view(i),
    {
        let mut out: Vec<Validator> = Vec::new();
        let mut i: usize = 0;
        while i < self.nodes.len()
            invariant
                i <= self.nodes@.len(),
                out@.len() == i,
                forall|k: int| 0 <= k < i ==> (#[trigger] out@[k])@ == self.validator_view(k),
            decreases self.nodes@.len() - i,
        {
            out.push(Validator::new(self.nodes[i].base_node(&self.bin, &self.dockerfile)));
            i = i + 1;
        }
        out
    }
}

} // verus!

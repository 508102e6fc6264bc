use vstd::prelude::*;

use crate::node::{
    opt_path, copy_opt_path, BaseNode, BaseNodeView, Collator, CollatorRelay, CollatorView,
    RelayView,
};
use crate::path_buffer::PathBuffer;
use crate::util::{copy_texts, texts};

verus! {

/// The collators of a configuration: one binary and dockerfile shared by
/// all, and the nodes.
#[derive(Debug)]
pub struct CollatorConfig {
    pub bin: PathBuffer,
    pub dockerfile: Option<PathBuffer>,
    pub nodes: Vec<CollatorNodeConfig>,
}

/// One collator node of a configuration.
#[derive(Debug)]
pub struct CollatorNodeConfig {
    pub name: String,
    pub chain: PathBuffer,
    pub args: Vec<String>,
    pub port: u16,
    pub ws_port: u16,
    pub rpc_port: Option<u16>,
    pub relay: CollatorNodeRelayConfig,
}

/// The relay-chain parameters of a collator node.
#[derive(Debug)]
pub struct CollatorNodeRelayConfig {
    pub chain: PathBuffer,
    pub args: Option<Vec<String>>,
    pub port: u16,
    pub ws_port: u16,
    pub rpc_port: Option<u16>,
}

impl CollatorNodeRelayConfig {
    pub open spec fn relay_view(self) -> RelayView {
        RelayView {
            chain: self.chain@,
            args: match self.args {
                Some(a) => Some(texts(a@)),
                None => None,
            },
            port: self.port,
            ws_port: self.ws_port,
            rpc_port: self.rpc_port,
        }
    }
}

impl CollatorNodeConfig {
    /// The collator this node describes, run by `bin` and built by
    /// `dockerfile`.
    pub open spec fn collator_view(self, bin: Seq<u8>, dockerfile: Option<Seq<u8>>) -> CollatorView {
        CollatorView {
            inner: BaseNodeView {
                name: self.name@,
                bin,
                chain: self.chain@,
                dockerfile,
                args: texts(self.args@),
                port: self.port,
                ws_port: self.ws_port,
                rpc_port: self.rpc_port,
            },
            relay: self.relay.relay_view(),
        }
    }

    pub fn base_node(&self, bin: &PathBuffer, dockerfile: &Option<PathBuffer>) -> (r: BaseNode)
        ensures
            r@ == self.collator_view(bin@, opt_path(*dockerfile)).inner,
    {
        BaseNode::new(
            self.name.clone(),
            bin.duplicate(),
            self.chain.duplicate(),
            copy_opt_path(dockerfile),
            copy_texts(&self.args),
            self.port,
            self.ws_port,
            self.rpc_port,
        )
    }

    pub fn relay(&self) -> (r: CollatorRelay)
        ensures
            r@ == self.relay.relay_view(),
    {
        let args = match &self.relay.args {
            Some(a) => Some(copy_texts(a)),
            None => None,
        };
        CollatorRelay::new(
            self.relay.chain.duplicate(),
            args,
            self.relay.port,
            self.relay.ws_port,
            self.relay.rpc_port,
        )
    }

    pub fn collator(&self, bin: &PathBuffer, dockerfile: &Option<PathBuffer>) -> (r: Collator)
        ensures
            r@ == self.collator_view(bin@, opt_path(*dockerfile)),
    {
        Collator::new(self.base_node(bin, dockerfile), self.relay())
    }
}

impl CollatorConfig {
    /// The collator that the node at `i` describes.
    pub open spec fn collator_view(self, i: int) -> CollatorView {
        self.nodes@[i].collator_view(self.bin@, opt_path(self.dockerfile))
    }

    /// The collators this configuration describes, in order.
    pub fn collators(&self) -> (r: Vec<Collator>)
        ensures
            r@.len() == self.nodes@.len(),
            forall|i: int| 0 <= i < r@.len() ==> (#[trigger] r@[i])@ == self.collator_view(i),
    {
        let mut out: Vec<Collator> = Vec::new();
        let mut i: usize = 0;
        while i < self.nodes.len()
            invariant
                i <= self.nodes@.len(),
                out@.len() == i,
                forall|k: int| 0 <= k < i ==> (#[trigger] out@[k])@ == self.collator_view(k),
            decreases self.nodes@.len() - i,
        {
            out.push(self.nodes[i].collator(&self.bin, &self.dockerfile));
            i = i + 1;
        }
        out
    }
}

} // verus!

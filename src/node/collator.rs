use vstd::prelude::*;

use super::base::{opt_path, texts_result, BaseNode, BaseNodeView};
use super::{rpc_flag, then_args};
use crate::error::Error;
use crate::path_buffer::{path_text, PathBuffer};
use crate::task::{Task, TaskView};
use crate::util::{copy_texts, decimal, port_to_string, texts};

verus! {

/// The abstract value of a collator's relay-chain parameters.
pub struct RelayView {
    pub chain: Seq<u8>,
    pub args: Option<Seq<Seq<char>>>,
    pub port: u16,
    pub ws_port: u16,
    pub rpc_port: Option<u16>,
}

/// The abstract value of a collator.
pub struct CollatorView {
    pub inner: BaseNodeView,
    pub relay: RelayView,
}

impl RelayView {
    /// The relay part of a collator's command line: `--collator --`, then the
    /// relay chain spec and ports, the relay's extra arguments, and its rpc
    /// port when set.
    pub open spec fn args_spec(self) -> Result<Seq<Seq<char>>, Error> {
        match path_text(self.chain) {
            Some(chain) => Ok(
                seq![
                    "--collator"@,
                    "--"@,
                    "--chain"@,
                    chain,
                    "--port"@,
                    decimal(self.port as nat),
                    "--ws-port"@,
                    decimal(self.ws_port as nat),
                ] + match self.args {
                    Some(a) => a,
                    None => seq![],
                } + rpc_flag(self.rpc_port),
            ),
            None => Err(Error::InvalidPath),
        }
    }
}

impl CollatorView {
    /// The six ports a collator claims, in order: its own p2p, websocket and
    /// rpc ports, then the relay's.
    pub open spec fn ports(self) -> Seq<Option<u16>> {
        self.inner.ports() + seq![Some(self.relay.port), Some(self.relay.ws_port), self.relay.rpc_port]
    }

    /// The complete argument list: the node's arguments, then the relay part.
    pub open spec fn collator_args(self) -> Result<Seq<Seq<char>>, Error> {
        then_args(self.inner.args_spec(), self.relay.args_spec())
    }

    /// The chain spec paths as text: the collator's own, then the relay's.
    pub open spec fn specs_spec(self) -> Result<Seq<Seq<char>>, Error> {
        match (path_text(self.inner.chain), path_text(self.relay.chain)) {
            (Some(a), Some(b)) => Ok(seq![a, b]),
            _ => Err(Error::InvalidPath),
        }
    }
}

/// The relay-chain connection parameters of a collator.
#[derive(Debug)]
pub struct CollatorRelay {
    pub chain: PathBuffer,
    pub args: Option<Vec<String>>,
    pub port: u16,
    pub ws_port: u16,
    pub rpc_port: Option<u16>,
}

impl View for CollatorRelay {
    type V = RelayView;

    open spec fn view(&self) -> RelayView {
        RelayView {
            chain: self.chain@,
            args: match self.args {
                Some(a) => Some(texts(a@)),
                None => None,
            },
            port: self.port,
            ws_port: self.ws_port,
            rpc_port: self.rpc_port,
        }
    }
}

impl CollatorRelay {
    pub fn new(
        chain: PathBuffer,
        args: Option<Vec<String>>,
        port: u16,
        ws_port: u16,
        rpc_port: Option<u16>,
    ) -> (r: CollatorRelay)
        ensures
            r@ == (RelayView {
                chain: chain@,
                args: match args {
                    Some(a) => Some(texts(a@)),
                    None => None,
                },
                port,
                ws_port,
                rpc_port,
            }),
    {
        CollatorRelay { chain, args, port, ws_port, rpc_port }
    }
}

/// A node that produces parachain blocks and follows a relay chain, for which
/// it carries a second set of connection parameters.
#[derive(Debug)]
pub struct Collator {
    pub inner: BaseNode,
    pub relay: CollatorRelay,
}

impl View for Collator {
    type V = CollatorView;

    open spec fn view(&self) -> CollatorView {
        CollatorView { inner: self.inner@, relay: self.relay@ }
    }
}

impl Collator {
    pub fn new(inner: BaseNode, relay: CollatorRelay) -> (r: Collator)
        ensures
            r@ == (CollatorView { inner: inner@, relay: relay@ }),
    {
        Collator { inner, relay }
    }

    pub fn name(&self) -> (r: &str)
        ensures
            r@ == self@.inner.name,
    {
        self.inner.name()
    }

    /// The arguments a collator adds to the node's own (see
    /// `RelayView::args_spec`).
    pub fn args(&self) -> (r: Result<Vec<String>, Error>)
        ensures
            texts_result(r) == self@.relay.args_spec(),
    {
        let chain = match self.relay.chain.to_string() {
            Ok(c) => c,
            Err(e) => return Err(e),
        };
        let mut args: Vec<String> = Vec::new();
        args.push("--collator".to_owned());
        args.push("--".to_owned());
        args.push("--chain".to_owned());
        args.push(chain);
        args.push("--port".to_owned());
        args.push(port_to_string(self.relay.port));
        args.push("--ws-port".to_owned());
        args.push(port_to_string(self.relay.ws_port));
        if let Some(extra) = &self.relay.args {
            let mut extra = copy_texts(extra);
            args.append(&mut extra);
        }
        if let Some(rpc) = self.relay.rpc_port {
            args.push("--rpc-port".to_owned());
            args.push(port_to_string(rpc));
        }
        assert(texts(args@) =~= self@.relay.args_spec()->Ok_0);
        Ok(args)
    }

    /// The six ports the collator claims: p2p, websocket and rpc of the node,
    /// then of the relay.
    pub fn ports(&self) -> (r: Vec<Option<u16>>)
        ensures
            r@ == self@.ports(),
    {
        let mut ports = self.inner.ports();
        ports.push(Some(self.relay.port));
        ports.push(Some(self.relay.ws_port));
        ports.push(self.relay.rpc_port);
        assert(ports@ =~= self@.ports());
        ports
    }

    /// The chain spec paths as text: the collator's own, then the relay's.
    pub fn specs(&self) -> (r: Result<Vec<String>, Error>)
        ensures
            texts_result(r) == self@.specs_spec(),
    {
        let own = match self.inner.chain().to_string() {
            Ok(c) => c,
            Err(e) => return Err(e),
        };
        let relay = match self.relay.chain.to_string() {
            Ok(c) => c,
            Err(e) => return Err(e),
        };
        let r = vec![own, relay];
        assert(texts(r@) =~= self@.specs_spec()->Ok_0);
        Ok(r)
    }

    pub fn docker_file(&self) -> (r: Result<String, Error>)
        ensures
            match r {
                Ok(s) => self@.inner.docker_file_spec() == Ok::<Seq<char>, Error>(s@),
                Err(e) => self@.inner.docker_file_spec() == Err::<Seq<char>, Error>(e),
            },
    {
        self.inner.docker_file()
    }

    /// The complete argument list the collator binary is started with: the
    /// node's arguments, then `--collator -- ` and the relay's.
    pub fn build_arguments(&self) -> (r: Result<Vec<String>, Error>)
        ensures
            texts_result(r) == self@.collator_args(),
    {
        let mut args = match self.inner.args() {
            Ok(a) => a,
            Err(e) => return Err(e),
        };
        let mut relay = match self.args() {
            Ok(a) => a,
            Err(e) => return Err(e),
        };
        args.append(&mut relay);
        assert(texts(args@) =~= self@.collator_args()->Ok_0);
        Ok(args)
    }

    /// The task that runs this collator, its output logged under `log_dir`
    /// when one is given.
    pub fn create_task(&self, log_dir: &Option<PathBuffer>) -> (r: Result<Task, Error>)
        ensures
            match r {
                Ok(t) => self@.inner.task_spec(self@.collator_args(), opt_path(*log_dir)) == Ok::<
                    TaskView,
                    Error,
                >(t@),
                Err(e) => self@.inner.task_spec(self@.collator_args(), opt_path(*log_dir)) == Err::<
                    TaskView,
                    Error,
                >(e),
            },
    {
        let args = match self.build_arguments() {
            Ok(a) => a,
            Err(e) => return Err(e),
        };
        let log_file = self.inner.log_file(log_dir);
        Ok(Task::new(self.inner.bin.duplicate(), args, log_file))
    }
}

} // verus!

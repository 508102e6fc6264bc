use vstd::prelude::*;
use vstd::string::StringExecFns;
use vstd::utf8::encode_utf8;

use super::rpc_flag;
use crate::error::Error;
use crate::path_buffer::{joined, path_text, PathBuffer};
use crate::task::TaskView;
use crate::util::{copy_texts, decimal, port_to_string, texts};

verus! {

/// The abstract value of a node descriptor.
pub struct BaseNodeView {
    pub name: Seq<char>,
    pub bin: Seq<u8>,
    pub chain: Seq<u8>,
    pub dockerfile: Option<Seq<u8>>,
    pub args: Seq<Seq<char>>,
    pub port: u16,
    pub ws_port: u16,
    pub rpc_port: Option<u16>,
}

impl BaseNodeView {
    /// The ports this node claims, in order: p2p, websocket, rpc.
    pub open spec fn ports(self) -> Seq<Option<u16>> {
        seq![Some(self.port), Some(self.ws_port), self.rpc_port]
    }

    /// The node's own arguments: its extra arguments, then chain spec, ports
    /// and name.
    pub open spec fn args_spec(self) -> Result<Seq<Seq<char>>, Error> {
        match path_text(self.chain) {
            Some(chain) => Ok(
                self.args + seq![
                    "--chain"@,
                    chain,
                    "--port"@,
                    decimal(self.port as nat),
                    "--ws-port"@,
                    decimal(self.ws_port as nat),
                ] + rpc_flag(self.rpc_port) + seq!["--name"@, self.name],
            ),
            None => Err(Error::InvalidPath),
        }
    }

    /// The text of the chain spec path.
    pub open spec fn specs_spec(self) -> Result<Seq<Seq<char>>, Error> {
        match path_text(self.chain) {
            Some(chain) => Ok(seq![chain]),
            None => Err(Error::InvalidPath),
        }
    }

    /// The dockerfile path as text, `Dockerfile` when none is set.
    pub open spec fn docker_file_spec(self) -> Result<Seq<char>, Error> {
        match self.dockerfile {
            Some(p) => match path_text(p) {
                Some(t) => Ok(t),
                None => Err(Error::InvalidPath),
            },
            None => Ok("Dockerfile"@),
        }
    }

    /// The name of this node's log file: `<name>.log`.
    pub open spec fn log_name(self) -> Seq<char> {
        self.name + ".log"@
    }

    /// Where this node's output goes under `log_dir`: `<log_dir>/<name>.log`.
    pub open spec fn log_file(self, log_dir: Option<Seq<u8>>) -> Option<Seq<u8>> {
        match log_dir {
            Some(d) => Some(joined(d, encode_utf8(self.log_name()))),
            None => None,
        }
    }

    /// The task that runs this node's binary with `args`.
    pub open spec fn task_spec(
        self,
        args: Result<Seq<Seq<char>>, Error>,
        log_dir: Option<Seq<u8>>,
    ) -> Result<TaskView, Error> {
        match args {
            Ok(a) => Ok(
                TaskView { program: self.bin, args: a, log_file: self.log_file(log_dir), handle: None },
            ),
            Err(e) => Err(e),
        }
    }
}

/// The results of an argument builder, as texts.
pub open spec fn texts_result(r: Result<Vec<String>, Error>) -> Result<Seq<Seq<char>>, Error> {
    match r {
        Ok(v) => Ok(texts(v@)),
        Err(e) => Err(e),
    }
}

/// The launch parameters of one node: binary, chain spec, ports, extra
/// arguments and name. Immutable once built.
#[derive(Debug)]
pub struct BaseNode {
    pub name: String,
    pub bin: PathBuffer,
    pub chain: PathBuffer,
    pub dockerfile: Option<PathBuffer>,
    pub args: Vec<String>,
    pub port: u16,
    pub ws_port: u16,
    pub rpc_port: Option<u16>,
}

/// The bytes of an optional path.
pub open spec fn opt_path(p: Option<PathBuffer>) -> Option<Seq<u8>> {
    match p {
        Some(p) => Some(p@),
        None => None,
    }
}

impl View for BaseNode {
    type V = BaseNodeView;

    open spec fn view(&self) -> BaseNodeView {
        BaseNodeView {
            name: self.name@,
            bin: self.bin@,
            chain: self.chain@,
            dockerfile: opt_path(self.dockerfile),
            args: texts(self.args@),
            port: self.port,
            ws_port: self.ws_port,
            rpc_port: self.rpc_port,
        }
    }
}

/// A copy of an optional path.
pub fn copy_opt_path(p: &Option<PathBuffer>) -> (r: Option<PathBuffer>)
    ensures
        opt_path(r) == opt_path(*p),
{
    match p {
        Some(p) => Some(p.duplicate()),
        None => None,
    }
}

impl BaseNode {
    pub fn new(
        name: String,
        bin: PathBuffer,
        chain: PathBuffer,
        dockerfile: Option<PathBuffer>,
        args: Vec<String>,
        port: u16,
        ws_port: u16,
        rpc_port: Option<u16>,
    ) -> (r: BaseNode)
        ensures
            r@ == (BaseNodeView {
                name: name@,
                bin: bin@,
                chain: chain@,
                dockerfile: opt_path(dockerfile),
                args: texts(args@),
                port,
                ws_port,
                rpc_port,
            }),
    {
        BaseNode { name, bin, chain, dockerfile, args, port, ws_port, rpc_port }
    }

    /// The chain spec path.
    pub fn chain(&self) -> (r: &PathBuffer)
        ensures
            r@ == self@.chain,
    {
        &self.chain
    }

    /// The name of this node's log file: `<name>.log`.
    pub fn get_log_name(&self) -> (r: Result<String, Error>)
        ensures
            r is Ok && r->Ok_0@ == self@.log_name(),
    {
        let mut s = self.name.clone();
        s.append(".log");
        Ok(s)
    }

    /// The node's name.
    pub fn name(&self) -> (r: &str)
        ensures
            r@ == self@.name,
    {
        self.name.as_str()
    }

    /// The node's own arguments (see `BaseNodeView::args_spec`).
    pub fn args(&self) -> (r: Result<Vec<String>, Error>)
        ensures
            texts_result(r) == self@.args_spec(),
    {
        let chain = match self.chain.to_string() {
            Ok(c) => c,
            Err(e) => return Err(e),
        };
        let mut args = copy_texts(&self.args);
        args.push("--chain".to_owned());
        args.push(chain);
        args.push("--port".to_owned());
        args.push(port_to_string(self.port));
        args.push("--ws-port".to_owned());
        args.push(port_to_string(self.ws_port));
        if let Some(rpc) = self.rpc_port {
            args.push("--rpc-port".to_owned());
            args.push(port_to_string(rpc));
        }
        args.push("--name".to_owned());
        args.push(self.name.clone());
        assert(texts(args@) =~= self@.args_spec()->Ok_0);
        Ok(args)
    }

    /// The ports this node claims: p2p, websocket, rpc.
    pub fn ports(&self) -> (r: Vec<Option<u16>>)
        ensures
            r@ == self@.ports(),
    {
        let r = vec![Some(self.port), Some(self.ws_port), self.rpc_port];
        assert(r@ =~= self@.ports());
        r
    }

    /// The chain spec paths this node uses, as text.
    pub fn specs(&self) -> (r: Result<Vec<String>, Error>)
        ensures
            texts_result(r) == self@.specs_spec(),
    {
        match self.chain.to_string() {
            Ok(c) => {
                let r = vec![c];
                assert(texts(r@) =~= self@.specs_spec()->Ok_0);
                Ok(r)
            },
            Err(e) => Err(e),
        }
    }

    /// The dockerfile that builds this node's image, as text.
    pub fn docker_file(&self) -> (r: Result<String, Error>)
        ensures
            match r {
                Ok(s) => self@.docker_file_spec() == Ok::<Seq<char>, Error>(s@),
                Err(e) => self@.docker_file_spec() == Err::<Seq<char>, Error>(e),
            },
    {
        match &self.dockerfile {
            Some(path) => path.to_string(),
            None => Ok("Dockerfile".to_owned()),
        }
    }

    /// Where this node's output goes: `<log_dir>/<name>.log`, or nowhere.
    pub fn log_file(&self, log_dir: &Option<PathBuffer>) -> (r: Option<PathBuffer>)
        ensures
            opt_path(r) == self@.log_file(opt_path(*log_dir)),
    {
        match log_dir {
            Some(dir) => {
                let mut name = self.name.clone();
                name.append(".log");
                Some(dir.join(name.as_str()))
            },
            None => None,
        }
    }
}

} // verus!

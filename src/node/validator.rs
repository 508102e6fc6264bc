use vstd::prelude::*;

use super::base::{texts_result, BaseNode, BaseNodeView, opt_path};
use crate::error::Error;
use crate::path_buffer::PathBuffer;
use crate::task::{Task, TaskView};

verus! {

impl BaseNodeView {
    /// The complete argument list of a validator: the node's arguments, then
    /// `--validator`.
    pub open spec fn validator_args(self) -> Result<Seq<Seq<char>>, Error> {
        match self.args_spec() {
            Ok(a) => Ok(a + seq!["--validator"@]),
            Err(e) => Err(e),
        }
    }
}

/// A node that takes part in relay-chain consensus.
#[derive(Debug)]
pub struct Validator(pub BaseNode);

impl View for Validator {
    type V = BaseNodeView;

    open spec fn view(&self) -> BaseNodeView {
        self.0@
    }
}

impl Validator {
    pub fn new(node: BaseNode) -> (r: Validator)
        ensures
            r@ == node@,
    {
        Validator(node)
    }

    /// The descriptor of the node.
    pub fn as_base(&self) -> (r: &BaseNode)
        ensures
            r@ == self@,
    {
        &self.0
    }

    pub fn name(&self) -> (r: &str)
        ensures
            r@ == self@.name,
    {
        self.0.name()
    }

    /// The arguments a validator adds to the node's own: `--validator`.
    pub fn args(&self) -> (r: Result<Vec<String>, Error>)
        ensures
            texts_result(r) == Ok::<Seq<Seq<char>>, Error>(seq!["--validator"@]),
    {
        let r = vec!["--validator".to_owned()];
        assert(crate::util::texts(r@) =~= seq!["--validator"@]);
        Ok(r)
    }

    /// The ports the validator claims: p2p, websocket, rpc.
    pub fn ports(&self) -> (r: Vec<Option<u16>>)
        ensures
            r@ == self@.ports(),
    {
        self.0.ports()
    }

    pub fn specs(&self) -> (r: Result<Vec<String>, Error>)
        ensures
            texts_result(r) == self@.specs_spec(),
    {
        self.0.specs()
    }

    pub fn docker_file(&self) -> (r: Result<String, Error>)
        ensures
            match r {
                Ok(s) => self@.docker_file_spec() == Ok::<Seq<char>, Error>(s@),
                Err(e) => self@.docker_file_spec() == Err::<Seq<char>, Error>(e),
            },
    {
        self.0.docker_file()
    }

    /// The complete argument list the validator binary is started with:
    /// extra arguments, `--chain`, `--port`, `--ws-port`, `--rpc-port` when
    /// set, `--name`, and `--validator`.
    pub fn build_arguments(&self) -> (r: Result<Vec<String>, Error>)
        ensures
            texts_result(r) == self@.validator_args(),
    {
        let mut args = match self.0.args() {
            Ok(a) => a,
            Err(e) => return Err(e),
        };
        let mut own = match self.args() {
            Ok(a) => a,
            Err(e) => return Err(e),
        };
        args.append(&mut own);
        assert(crate::util::texts(args@) =~= self@.validator_args()->Ok_0);
        Ok(args)
    }

    /// The task that runs this validator, its output logged under `log_dir`
    /// when one is given.
    pub fn create_task(&self, log_dir: &Option<PathBuffer>) -> (r: Result<Task, Error>)
        ensures
            match r {
                Ok(t) => self@.task_spec(self@.validator_args(), opt_path(*log_dir)) == Ok::<
                    TaskView,
                    Error,
                >(t@),
                Err(e) => self@.task_spec(self@.validator_args(), opt_path(*log_dir)) == Err::<
                    TaskView,
                    Error,
                >(e),
            },
    {
        let args = match self.build_arguments() {
            Ok(a) => a,
            Err(e) => return Err(e),
        };
        let log_file = self.0.log_file(log_dir);
        Ok(Task::new(self.0.bin.duplicate(), args, log_file))
    }
}

} // verus!

use vstd::prelude::*;
use std::collections::HashSet;

use crate::config::{opt_string, Config};
use crate::error::Error;
use crate::node::{opt_path, Collator, Validator};
use crate::path_buffer::PathBuffer;
use crate::ports::{
    claim_ports, has_duplicate, lemma_duplicate_port_rejected, lemma_scan_concat, port_check, present,
    scan,
};
use crate::task::manager::{Action, ManagerView};
use crate::task::{Task, TaskManager, TaskView};

verus! {

broadcast use vstd::std_specs::hash::group_hash_axioms;

/// What `str::to_lowercase` returns for a text.
pub uninterp spec fn lower_of(s: Seq<char>) -> Seq<char>;

/// Relies on `str::to_lowercase`: the lowercase text depends on the
/// characters alone.
#[verifier::external_body]
fn lowercase(s: &str) -> (r: String)
    ensures
        r@ == lower_of(s@),
{
    s.to_lowercase()
}

/// The network a launch targets.
#[derive(Debug, Clone, Copy, PartialEq, Eq, Structural)]
pub enum LauncherMode {
    Local,
    TestNet,
}

/// The mode a lowercase mode name selects; unknown names select `Local`.
pub open spec fn mode_of(lowered: Seq<char>) -> LauncherMode {
    if lowered == "local"@ {
        LauncherMode::Local
    } else if lowered == "testnet"@ {
        LauncherMode::TestNet
    } else {
        LauncherMode::Local
    }
}

/// The mode a configuration's optional mode name selects, ignoring case.
pub open spec fn mode_from(mode: Option<Seq<char>>) -> LauncherMode {
    match mode {
        Some(m) => mode_of(lower_of(m)),
        None => LauncherMode::Local,
    }
}

impl Default for LauncherMode {
    fn default() -> (r: LauncherMode)
        ensures
            r == LauncherMode::Local,
    {
        LauncherMode::Local
    }
}

impl LauncherMode {
    /// The mode named by an already lowercase name: `local` or `testnet`;
    /// any other name selects `Local`.
    pub fn from_lowercase(lowered: &str) -> (r: LauncherMode)
        ensures
            r == mode_of(lowered@),
    {
        let s = lowered.to_owned();
        let local = "local".to_owned();
        let testnet = "testnet".to_owned();
        if s == local {
            LauncherMode::Local
        } else if s == testnet {
            LauncherMode::TestNet
        } else {
            LauncherMode::Local
        }
    }

    /// The mode a configuration names, ignoring case; `Local` when it names
    /// none or an unknown one.
    pub fn from_mode(mode: &Option<String>) -> (r: LauncherMode)
        ensures
            r == mode_from(opt_string(*mode)),
    {
        match mode {
            Some(m) => LauncherMode::from_lowercase(lowercase(m.as_str()).as_str()),
            None => LauncherMode::Local,
        }
    }
}

/// The ports of a list of port lists, in order.
pub open spec fn flat(ss: Seq<Seq<u16>>) -> Seq<u16>
    decreases ss.len(),
{
    if ss.len() == 0 {
        seq![]
    } else {
        flat(ss.drop_last()) + ss.last()
    }
}

/// The ports the validators declare, in order.
pub open spec fn validator_ports(vs: Seq<Validator>) -> Seq<u16> {
    flat(vs.map_values(|v: Validator| present(v@.ports())))
}

/// The ports the collators declare, in order.
pub open spec fn collator_ports(cs: Seq<Collator>) -> Seq<u16> {
    flat(cs.map_values(|c: Collator| present(c@.ports())))
}

/// Every port a configuration declares: the validators' first, then the
/// collators', each node's in its own order.
pub open spec fn declared_ports(vs: Seq<Validator>, cs: Seq<Collator>) -> Seq<u16> {
    validator_ports(vs) + collator_ports(cs)
}

/// The tasks of the validators, in order, or the first validator's error.
pub open spec fn validator_tasks(vs: Seq<Validator>, log_dir: Option<Seq<u8>>) -> Result<
    Seq<TaskView>,
    Error,
>
    decreases vs.len(),
{
    if vs.len() == 0 {
        Ok(seq![])
    } else {
        match validator_tasks(vs.drop_last(), log_dir) {
            Err(e) => Err(e),
            Ok(ts) => match vs.last()@.task_spec(vs.last()@.validator_args(), log_dir) {
                Ok(t) => Ok(ts.push(t)),
                Err(e) => Err(e),
            },
        }
    }
}

/// The tasks of the collators, in order, or the first collator's error.
pub open spec fn collator_tasks(cs: Seq<Collator>, log_dir: Option<Seq<u8>>) -> Result<
    Seq<TaskView>,
    Error,
>
    decreases cs.len(),
{
    if cs.len() == 0 {
        Ok(seq![])
    } else {
        match collator_tasks(cs.drop_last(), log_dir) {
            Err(e) => Err(e),
            Ok(ts) => match cs.last()@.inner.task_spec(cs.last()@.collator_args(), log_dir) {
                Ok(t) => Ok(ts.push(t)),
                Err(e) => Err(e),
            },
        }
    }
}

/// The tasks of a launch: the validators', then the collators'.
pub open spec fn launch_tasks(
    vs: Seq<Validator>,
    cs: Seq<Collator>,
    log_dir: Option<Seq<u8>>,
) -> Result<Seq<TaskView>, Error> {
    match validator_tasks(vs, log_dir) {
        Err(e) => Err(e),
        Ok(a) => match collator_tasks(cs, log_dir) {
            Err(e) => Err(e),
            Ok(b) => Ok(a + b),
        },
    }
}

/// The ports of a list of port lists are those of its two parts.
proof fn lemma_flat_split(ss: Seq<Seq<u16>>, k: int)
    requires
        0 <= k <= ss.len(),
    ensures
        flat(ss) == flat(ss.subrange(0, k)) + flat(ss.subrange(k, ss.len() as int)),
    decreases ss.len(),
{
    if k == ss.len() {
        assert(ss.subrange(0, k) =~= ss);
        assert(flat(ss.subrange(k, ss.len() as int)) =~= seq![]) by {
            assert(ss.subrange(k, ss.len() as int).len() == 0);
        }
        assert(flat(ss) + seq![] =~= flat(ss));
    } else {
        let pre = ss.drop_last();
        lemma_flat_split(pre, k);
        assert(pre.subrange(0, k) =~= ss.subrange(0, k));
        assert(ss.subrange(k, ss.len() as int).drop_last() =~= pre.subrange(k, pre.len() as int));
        assert(ss.subrange(k, ss.len() as int).last() == ss.last());
        assert(flat(ss.subrange(k, ss.len() as int)) == flat(pre.subrange(k, pre.len() as int))
            + ss.last());
        assert(flat(ss) =~= flat(ss.subrange(0, k)) + flat(ss.subrange(k, ss.len() as int)));
    }
}

/// A scan that stops within `a` stops there within any extension of `a`.
proof fn lemma_scan_stops(claimed: Set<u16>, a: Seq<u16>, b: Seq<u16>)
    requires
        scan(claimed, a) is Err,
    ensures
        scan(claimed, a + b) == scan(claimed, a),
{
    lemma_scan_concat(claimed, a, b);
}

/// A validator whose task cannot be built stops the whole list there.
proof fn lemma_validator_tasks_stop(vs: Seq<Validator>, k: int, log_dir: Option<Seq<u8>>)
    requires
        0 <= k <= vs.len(),
        validator_tasks(vs.subrange(0, k), log_dir) is Err,
    ensures
        validator_tasks(vs, log_dir) == validator_tasks(vs.subrange(0, k), log_dir),
    decreases vs.len() - k,
{
    if k < vs.len() {
        assert(vs.subrange(0, k + 1).drop_last() =~= vs.subrange(0, k));
        lemma_validator_tasks_stop(vs, k + 1, log_dir);
    } else {
        assert(vs.subrange(0, k) =~= vs);
    }
}

/// A collator whose task cannot be built stops the whole list there.
proof fn lemma_collator_tasks_stop(cs: Seq<Collator>, k: int, log_dir: Option<Seq<u8>>)
    requires
        0 <= k <= cs.len(),
        collator_tasks(cs.subrange(0, k), log_dir) is Err,
    ensures
        collator_tasks(cs, log_dir) == collator_tasks(cs.subrange(0, k), log_dir),
    decreases cs.len() - k,
{
    if k < cs.len() {
        assert(cs.subrange(0, k + 1).drop_last() =~= cs.subrange(0, k));
        lemma_collator_tasks_stop(cs, k + 1, log_dir);
    } else {
        assert(cs.subrange(0, k) =~= cs);
    }
}

/// Checks that no port is declared twice. Ports are claimed in a fixed
/// order, validators first, and the first one claimed a second time is
/// reported.
pub fn check_unique_ports(validators: &Vec<Validator>, collators: &Vec<Collator>) -> (r: Result<
    (),
    Error,
>)
    ensures
        r == port_check(declared_ports(validators@, collators@)),
{
    let ghost vs = validators@;
    let ghost cs = collators@;
    let ghost vss = vs.map_values(|v: Validator| present(v@.ports()));
    let ghost css = cs.map_values(|c: Collator| present(c@.ports()));
    let mut claimed: HashSet<u16> = HashSet::new();
    let mut i: usize = 0;
    while i < validators.len()
        invariant
            i <= vs.len(),
            vs == validators@,
            vss == vs.map_values(|v: Validator| present(v@.ports())),
            css == cs.map_values(|c: Collator| present(c@.ports())),
            cs == collators@,
            scan(Set::empty(), flat(vss.subrange(0, i as int))) == Ok::<Set<u16>, u16>(
                claimed@,
            ),
        decreases vs.len() - i,
    {
        let ghost before = claimed@;
        let ports = validators[i].ports();
        let claim = claim_ports(&mut claimed, &ports);
        proof {
            assert(vss.subrange(0, i + 1).drop_last() =~= vss.subrange(0, i as int));
            lemma_scan_concat(Set::empty(), flat(vss.subrange(0, i as int)), vss[i as int]);
        }
        if let Err(p) = claim {
            proof {
                let a = flat(vss.subrange(0, i + 1));
                lemma_flat_split(vss, i + 1);
                lemma_scan_stops(Set::empty(), a, flat(vss.subrange(i + 1, vss.len() as int)));
                lemma_scan_stops(Set::empty(), validator_ports(vs), collator_ports(cs));
            }
            return Err(Error::PortInUse(p));
        }
        i = i + 1;
    }
    assert(vss.subrange(0, vs.len() as int) =~= vss);
    let mut j: usize = 0;
    while j < collators.len()
        invariant
            j <= cs.len(),
            vs == validators@,
            cs == collators@,
            vss == vs.map_values(|v: Validator| present(v@.ports())),
            css == cs.map_values(|c: Collator| present(c@.ports())),
            scan(Set::empty(), validator_ports(vs) + flat(css.subrange(0, j as int))) == Ok::<
                Set<u16>,
                u16,
            >(claimed@),
        decreases cs.len() - j,
    {
        let ports = collators[j].ports();
        let claim = claim_ports(&mut claimed, &ports);
        let ghost a = validator_ports(vs) + flat(css.subrange(0, j as int));
        proof {
            assert(css.subrange(0, j + 1).drop_last() =~= css.subrange(0, j as int));
            assert(a + css[j as int] =~= validator_ports(vs) + flat(css.subrange(0, j + 1)));
            lemma_scan_concat(Set::empty(), a, css[j as int]);
        }
        if let Err(p) = claim {
            proof {
                lemma_flat_split(css, j + 1);
                let b = validator_ports(vs) + flat(css.subrange(0, j + 1));
                lemma_scan_stops(Set::empty(), b, flat(css.subrange(j + 1, css.len() as int)));
                assert(b + flat(css.subrange(j + 1, css.len() as int)) =~= declared_ports(vs, cs));
            }
            return Err(Error::PortInUse(p));
        }
        j = j + 1;
    }
    assert(css.subrange(0, cs.len() as int) =~= css);
    Ok(())
}


/// Checks the output options: silencing output and logging it to a
/// directory exclude each other.
pub fn check_log_options(quiet: bool, log_dir: &Option<PathBuffer>) -> (r: Result<(), Error>)
    ensures
        r is Err <==> quiet && log_dir is Some,
        r matches Err(e) ==> e matches Error::ProcessFailed(_),
{
    if quiet && log_dir.is_some() {
        Err(Error::ProcessFailed("Cannot use `--quiet` and `--log <DIR>` together".to_owned()))
    } else {
        Ok(())
    }
}

/// The node descriptors of a launch.
///
/// `run` checks the configuration, builds one task per node (validators
/// first, then collators, each in configuration order) and hands them to a
/// supervisor (see `TaskManager`), which it starts.
#[derive(Debug)]
pub struct Launcher {
    pub name: Option<String>,
    pub author: Option<String>,
    pub mode: LauncherMode,
    pub validators: Vec<Validator>,
    pub collators: Vec<Collator>,
    /// The directory that receives one `<name>.log` per node; output is
    /// discarded when none is set.
    pub log_dir: Option<PathBuffer>,
}

impl Launcher {
    /// What `run` prepares: the tasks of every node, unless a port is
    /// declared twice or a task cannot be built.
    pub open spec fn plan(&self) -> Result<Seq<TaskView>, Error> {
        match port_check(declared_ports(self.validators@, self.collators@)) {
            Err(e) => Err(e),
            Ok(()) => launch_tasks(self.validators@, self.collators@, opt_path(self.log_dir)),
        }
    }

    /// A launcher for the nodes of `config`, logging under `log_dir` when one
    /// is given. Nothing runs yet.
    pub fn new(config: Config, log_dir: Option<PathBuffer>) -> (r: Launcher)
        ensures
            r.name == config.name,
            r.author == config.author,
            r.mode == mode_from(opt_string(config.mode)),
            r.validators@.len() == config.validator.nodes@.len(),
            forall|i: int|
                0 <= i < r.validators@.len() ==> (#[trigger] r.validators@[i])@
                    == config.validator.validator_view(i),
            r.collators@.len() == config.collator.nodes@.len(),
            forall|i: int|
                0 <= i < r.collators@.len() ==> (#[trigger] r.collators@[i])@
                    == config.collator.collator_view(i),
            opt_path(r.log_dir) == opt_path(log_dir),
    {
        let mode = LauncherMode::from_mode(&config.mode);
        let validators = config.validator.validators();
        let collators = config.collator.collators();
        Launcher { name: config.name, author: config.author, mode, validators, collators, log_dir }
    }

    /// Checks that no port is declared twice. Ports are claimed in a fixed
    /// order, validators first, and the first one claimed a second time is
    /// reported.
    pub fn ensure_unique_ports(&self) -> (r: Result<(), Error>)
        ensures
            r == port_check(declared_ports(self.validators@, self.collators@)),
    {
        check_unique_ports(&self.validators, &self.collators)
    }

    /// The tasks of every node: validators first, then collators, each in
    /// configuration order; or the first node's error.
    pub fn generate_tasks(&self) -> (r: Result<Vec<Task>, Error>)
        ensures
            match r {
                Ok(ts) => launch_tasks(self.validators@, self.collators@, opt_path(self.log_dir))
                    == Ok::<Seq<TaskView>, Error>(ts@.map_values(|t: Task| t@)),
                Err(e) => launch_tasks(self.validators@, self.collators@, opt_path(self.log_dir))
                    == Err::<Seq<TaskView>, Error>(e),
            },
            r matches Ok(ts) ==> forall|k: int| 0 <= k < ts@.len() ==> (#[trigger] ts@[k])@.handle is None,
    {
        let ghost vs = self.validators@;
        let ghost cs = self.collators@;
        let ghost log = opt_path(self.log_dir);
        let mut tasks: Vec<Task> = Vec::new();
        let mut i: usize = 0;
        assert(vs.subrange(0, 0) =~= Seq::<Validator>::empty());
        assert(tasks@.map_values(|t: Task| t@) =~= Seq::<TaskView>::empty());
        while i < self.validators.len()
            invariant
                i <= vs.len(),
                vs == self.validators@,
                log == opt_path(self.log_dir),
                forall|k: int| 0 <= k < tasks@.len() ==> (#[trigger] tasks@[k])@.handle is None,
                validator_tasks(vs.subrange(0, i as int), log) == Ok::<Seq<TaskView>, Error>(
                    tasks@.map_values(|t: Task| t@),
                ),
            decreases vs.len() - i,
        {
            proof {
                assert(vs.subrange(0, i + 1).drop_last() =~= vs.subrange(0, i as int));
            }
            match self.validators[i].create_task(&self.log_dir) {
                Ok(t) => {
                    let ghost before = tasks@;
                    tasks.push(t);
                    assert(tasks@.map_values(|t: Task| t@) =~= before.map_values(|t: Task| t@).push(
                        t@,
                    ));
                },
                Err(e) => {
                    proof {
                        lemma_validator_tasks_stop(vs, i + 1, log);
                    }
                    return Err(e);
                },
            }
            i = i + 1;
        }
        assert(vs.subrange(0, vs.len() as int) =~= vs);
        let ghost vtasks = tasks@.map_values(|t: Task| t@);
        let mut ctasks: Vec<Task> = Vec::new();
        let mut j: usize = 0;
        assert(cs.subrange(0, 0) =~= Seq::<Collator>::empty());
        assert(ctasks@.map_values(|t: Task| t@) =~= Seq::<TaskView>::empty());
        while j < self.collators.len()
            invariant
                j <= cs.len(),
                cs == self.collators@,
                vs == self.validators@,
                log == opt_path(self.log_dir),
                validator_tasks(vs, log) == Ok::<Seq<TaskView>, Error>(vtasks),
                forall|k: int| 0 <= k < ctasks@.len() ==> (#[trigger] ctasks@[k])@.handle is None,
                collator_tasks(cs.subrange(0, j as int), log) == Ok::<Seq<TaskView>, Error>(
                    ctasks@.map_values(|t: Task| t@),
                ),
            decreases cs.len() - j,
        {
            proof {
                assert(cs.subrange(0, j + 1).drop_last() =~= cs.subrange(0, j as int));
            }
            match self.collators[j].create_task(&self.log_dir) {
                Ok(t) => {
                    let ghost before = ctasks@;
                    ctasks.push(t);
                    assert(ctasks@.map_values(|t: Task| t@) =~= before.map_values(|t: Task| t@).push(
                        t@,
                    ));
                },
                Err(e) => {
                    proof {
                        lemma_collator_tasks_stop(cs, j + 1, log);
                    }
                    return Err(e);
                },
            }
            j = j + 1;
        }
        assert(cs.subrange(0, cs.len() as int) =~= cs);
        let ghost ctv = ctasks@.map_values(|t: Task| t@);
        tasks.append(&mut ctasks);
        assert(tasks@.map_values(|t: Task| t@) =~= vtasks + ctv);
        Ok(tasks)
    }

    /// Begins the launch: checks that no port is declared twice, builds the
    /// tasks, and starts a supervisor over them, returned with its first
    /// action. A configuration error is returned before any task exists.
    pub fn run(&self) -> (r: Result<(TaskManager, Action), Error>)
        ensures
            match self.plan() {
                Ok(ts) => r matches Ok((m, a)) && a == Action::InstallHandler && m@
                    == ManagerView::initial(ts).run_spec().0 && m@.wf(),
                Err(e) => r == Err::<(TaskManager, Action), Error>(e),
            },
    {
        if let Err(e) = self.ensure_unique_ports() {
            return Err(e);
        }
        let tasks = match self.generate_tasks() {
            Ok(ts) => ts,
            Err(e) => return Err(e),
        };
        let mut manager = TaskManager::new(tasks);
        let action = manager.run();
        Ok((manager, action))
    }
}

/// A launch whose configuration declares some port twice is refused with
/// `PortInUse` of a port declared twice, before any task is built; without
/// such a port, the launch goes on to build the tasks.
pub proof fn lemma_duplicate_port_stops_launch(l: &Launcher)
    ensures
        has_duplicate(declared_ports(l.validators@, l.collators@)) ==> (l.plan() matches Err(
            Error::PortInUse(p),
        ) && exists|i: int, j: int|
            0 <= i < j < declared_ports(l.validators@, l.collators@).len() && declared_ports(
                l.validators@,
                l.collators@,
            )[i] == p && declared_ports(l.validators@, l.collators@)[j] == p),
        !has_duplicate(declared_ports(l.validators@, l.collators@)) ==> l.plan() == launch_tasks(
            l.validators@,
            l.collators@,
            opt_path(l.log_dir),
        ),
{
    lemma_duplicate_port_rejected(declared_ports(l.validators@, l.collators@));
}

} // verus!

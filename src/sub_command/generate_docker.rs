use vstd::prelude::*;
use vstd::string::StringExecFns;

use crate::error::Error;
use crate::launcher::Launcher;
use crate::node::{then_words, texts_result, BaseNodeView, Collator, CollatorView, Validator};
use crate::ports::present;
use crate::util::{decimal, push_decimal, texts};

verus! {

/// One published port of a service: `- "<port>:<port>"`.
pub open spec fn port_entry(p: u16) -> Seq<char> {
    "- \""@ + decimal(p as nat) + ":"@ + decimal(p as nat) + "\""@
}

/// The published ports, one indented line each.
pub open spec fn port_lines(ps: Seq<u16>) -> Seq<char>
    decreases ps.len(),
{
    if ps.len() == 0 {
        seq![]
    } else {
        port_lines(ps.drop_last()) + "\n      "@ + port_entry(ps.last())
    }
}

/// The compose service of one node.
pub open spec fn service_text(
    name: Seq<char>,
    dockerfile: Seq<char>,
    ports: Seq<u16>,
    volume: Option<Seq<char>>,
    command: Seq<char>,
) -> Seq<char> {
    "  "@ + name + ":\n    container_name: "@ + name
        + "\n    image: pendulumchain/pendulum:latest\n    build:\n      context: .\n      dockerfile: "@
        + dockerfile + "\n    ports:"@ + port_lines(ports) + match volume {
        Some(v) => "\n    volumes:\n      - "@ + v + ":/specs"@,
        None => seq![],
    } + "\n    restart: on-failure\n    command: "@ + command
}

/// The first line of a compose file and the start of its services.
pub open spec fn compose_header() -> Seq<char> {
    "version: \"3.2\"\n\nservices:"@
}

/// The texts, each on a line of its own; the first failure wins.
pub open spec fn gather(rs: Seq<Result<Seq<char>, Error>>) -> Result<Seq<char>, Error>
    decreases rs.len(),
{
    if rs.len() == 0 {
        Ok(seq![])
    } else {
        match gather(rs.drop_last()) {
            Err(e) => Err(e),
            Ok(s) => match rs.last() {
                Ok(t) => Ok(s + "\n"@ + t),
                Err(e) => Err(e),
            },
        }
    }
}

/// The lists one after the other; the first failure wins.
pub open spec fn gather_lists(rs: Seq<Result<Seq<Seq<char>>, Error>>) -> Result<
    Seq<Seq<char>>,
    Error,
>
    decreases rs.len(),
{
    if rs.len() == 0 {
        Ok(seq![])
    } else {
        match gather_lists(rs.drop_last()) {
            Err(e) => Err(e),
            Ok(s) => match rs.last() {
                Ok(t) => Ok(s + t),
                Err(e) => Err(e),
            },
        }
    }
}

/// The texts without repeats, each where it first occurs.
pub open spec fn dedup(s: Seq<Seq<char>>) -> Seq<Seq<char>>
    decreases s.len(),
{
    if s.len() == 0 {
        seq![]
    } else if dedup(s.drop_last()).contains(s.last()) {
        dedup(s.drop_last())
    } else {
        dedup(s.drop_last()).push(s.last())
    }
}

/// The service of a validator.
pub open spec fn validator_service(v: BaseNodeView, volume: Option<Seq<char>>) -> Result<
    Seq<char>,
    Error,
> {
    match v.docker_file_spec() {
        Err(e) => Err(e),
        Ok(df) => match then_words(v.external_command(volume is Some), Ok(seq!["--validator"@])) {
            Err(e) => Err(e),
            Ok(cmd) => Ok(service_text(v.name, df, present(v.ports()), volume, cmd)),
        },
    }
}

/// The service of a collator.
pub open spec fn collator_service(c: CollatorView, volume: Option<Seq<char>>) -> Result<
    Seq<char>,
    Error,
> {
    match c.inner.docker_file_spec() {
        Err(e) => Err(e),
        Ok(df) => match then_words(c.inner.external_command(volume is Some), c.relay.args_spec()) {
            Err(e) => Err(e),
            Ok(cmd) => Ok(service_text(c.inner.name, df, present(c.ports()), volume, cmd)),
        },
    }
}

/// A gathering that fails within a prefix fails there whatever follows.
proof fn lemma_gather_stop(rs: Seq<Result<Seq<char>, Error>>, k: int)
    requires
        0 <= k <= rs.len(),
        gather(rs.subrange(0, k)) is Err,
    ensures
        gather(rs) == gather(rs.subrange(0, k)),
    decreases rs.len() - k,
{
    if k < rs.len() {
        assert(rs.subrange(0, k + 1).drop_last() =~= rs.subrange(0, k));
        lemma_gather_stop(rs, k + 1);
    } else {
        assert(rs.subrange(0, k) =~= rs);
    }
}

/// A gathering of lists that fails within a prefix fails there whatever
/// follows.
proof fn lemma_gather_lists_stop(rs: Seq<Result<Seq<Seq<char>>, Error>>, k: int)
    requires
        0 <= k <= rs.len(),
        gather_lists(rs.subrange(0, k)) is Err,
    ensures
        gather_lists(rs) == gather_lists(rs.subrange(0, k)),
    decreases rs.len() - k,
{
    if k < rs.len() {
        assert(rs.subrange(0, k + 1).drop_last() =~= rs.subrange(0, k));
        lemma_gather_lists_stop(rs, k + 1);
    } else {
        assert(rs.subrange(0, k) =~= rs);
    }
}

/// Writes a docker-compose file describing the nodes of a launch: one
/// service per node, validators first, each publishing the node's ports and
/// running the node's command line.
#[derive(Debug)]
pub struct GenerateDocker {
    /// The project name, which also names the shared volume.
    pub name: String,
    pub launcher: Launcher,
    /// The directory that receives `docker-compose.yml`.
    pub out_dir: String,
    /// Whether every service mounts a shared volume holding the chain specs.
    pub enable_volume: bool,
}

impl GenerateDocker {
    /// The services of the validators, then of the collators.
    pub open spec fn service_results(&self) -> Seq<Result<Seq<char>, Error>> {
        let volume = if self.enable_volume {
            Some(self.name@)
        } else {
            None
        };
        self.launcher.validators@.map_values(|v: Validator| validator_service(v@, volume))
            + self.launcher.collators@.map_values(|c: Collator| collator_service(c@, volume))
    }

    /// The compose file's text.
    pub open spec fn contents_spec(&self) -> Result<Seq<char>, Error> {
        match gather(self.service_results()) {
            Ok(s) => Ok(compose_header() + s),
            Err(e) => Err(e),
        }
    }

    /// The chain spec paths of the validators, then of the collators.
    pub open spec fn spec_results(&self) -> Seq<Result<Seq<Seq<char>>, Error>> {
        self.launcher.validators@.map_values(|v: Validator| v@.specs_spec())
            + self.launcher.collators@.map_values(|c: Collator| c@.specs_spec())
    }

    /// A generator for the launch's nodes; the project is named after the
    /// launch, `pendulum-launch` when it has no name.
    pub fn new(launcher: Launcher, out_dir: String, enable_volume: bool) -> (r: GenerateDocker)
        ensures
            r.name@ == match launcher.name {
                Some(n) => n@,
                None => "pendulum-launch"@,
            },
            r.launcher == launcher,
            r.out_dir == out_dir,
            r.enable_volume == enable_volume,
    {
        let name = match &launcher.name {
            Some(n) => n.clone(),
            None => "pendulum-launch".to_owned(),
        };
        GenerateDocker { name, launcher, out_dir, enable_volume }
    }

    /// The published-port lines of a node.
    fn map_ports(ports: &Vec<Option<u16>>) -> (r: String)
        ensures
            r@ == port_lines(present(ports@)),
    {
        let mut out = String::new();
        let mut i: usize = 0;
        while i < ports.len()
            invariant
                i <= ports@.len(),
                out@ == port_lines(present(ports@.subrange(0, i as int))),
            decreases ports@.len() - i,
        {
            let ghost before = ports@.subrange(0, i as int);
            assert(ports@.subrange(0, i + 1).drop_last() =~= before);
            if let Some(p) = ports[i] {
                assert(present(ports@.subrange(0, i + 1)) =~= present(before).push(p));
                assert(present(before).push(p).drop_last() =~= present(before));
                let ghost prev = out@;
                out.append("\n      ");
                out.append("- \"");
                push_decimal(&mut out, p);
                out.append(":");
                push_decimal(&mut out, p);
                out.append("\"");
                assert(out@ =~= prev + "\n      "@ + port_entry(p));
            } else {
                assert(present(ports@.subrange(0, i + 1)) =~= present(before));
            }
            i = i + 1;
        }
        assert(ports@.subrange(0, ports@.len() as int) =~= ports@);
        out
    }

    /// The service text from its parts.
    fn write_service(
        &self,
        name: &str,
        dockerfile: &str,
        ports: &Vec<Option<u16>>,
        command: &str,
    ) -> (r: String)
        ensures
            r@ == service_text(
                name@,
                dockerfile@,
                present(ports@),
                if self.enable_volume {
                    Some(self.name@)
                } else {
                    None
                },
                command@,
            ),
    {
        let mut s = "  ".to_owned();
        s.append(name);
        s.append(":\n    container_name: ");
        s.append(name);
        s.append(
            "\n    image: pendulumchain/pendulum:latest\n    build:\n      context: .\n      dockerfile: ",
        );
        s.append(dockerfile);
        s.append("\n    ports:");
        let ports_text = GenerateDocker::map_ports(ports);
        s.append(ports_text.as_str());
        let ghost before_volume = s@;
        if self.enable_volume {
            s.append("\n    volumes:\n      - ");
            s.append(self.name.as_str());
            s.append(":/specs");
        }
        let ghost after_volume = s@;
        s.append("\n    restart: on-failure\n    command: ");
        s.append(command);
        let ghost volume_text = if self.enable_volume {
            "\n    volumes:\n      - "@ + self.name@ + ":/specs"@
        } else {
            seq![]
        };
        assert(after_volume =~= before_volume + volume_text);
        assert(s@ =~= service_text(
            name@,
            dockerfile@,
            present(ports@),
            if self.enable_volume {
                Some(self.name@)
            } else {
                None
            },
            command@,
        ));
        s
    }

    /// The service of a validator.
    fn validator_service(&self, v: &Validator) -> (r: Result<String, Error>)
        ensures
            match r {
                Ok(s) => validator_service(
                    v@,
                    if self.enable_volume {
                        Some(self.name@)
                    } else {
                        None
                    },
                ) == Ok::<Seq<char>, Error>(s@),
                Err(e) => validator_service(
                    v@,
                    if self.enable_volume {
                        Some(self.name@)
                    } else {
                        None
                    },
                ) == Err::<Seq<char>, Error>(e),
            },
    {
        let dockerfile = match v.docker_file() {
            Ok(d) => d,
            Err(e) => return Err(e),
        };
        let command = match v.as_command_external(self.enable_volume) {
            Ok(c) => c,
            Err(e) => return Err(e),
        };
        let ports = v.ports();
        Ok(self.write_service(v.name(), dockerfile.as_str(), &ports, command.as_str()))
    }

    /// The service of a collator.
    fn collator_service(&self, c: &Collator) -> (r: Result<String, Error>)
        ensures
            match r {
                Ok(s) => collator_service(
                    c@,
                    if self.enable_volume {
                        Some(self.name@)
                    } else {
                        None
                    },
                ) == Ok::<Seq<char>, Error>(s@),
                Err(e) => collator_service(
                    c@,
                    if self.enable_volume {
                        Some(self.name@)
                    } else {
                        None
                    },
                ) == Err::<Seq<char>, Error>(e),
            },
    {
        let dockerfile = match c.docker_file() {
            Ok(d) => d,
            Err(e) => return Err(e),
        };
        let command = match c.as_command_external(self.enable_volume) {
            Ok(c) => c,
            Err(e) => return Err(e),
        };
        let ports = c.ports();
        Ok(self.write_service(c.name(), dockerfile.as_str(), &ports, command.as_str()))
    }

    /// The text of `docker-compose.yml`: the header, then one service per
    /// node, validators first; or the first node's error.
    pub fn generate_contents(&self) -> (r: Result<String, Error>)
        ensures
            match r {
                Ok(s) => self.contents_spec() == Ok::<Seq<char>, Error>(s@),
                Err(e) => self.contents_spec() == Err::<Seq<char>, Error>(e),
            },
    {
        let ghost rs = self.service_results();
        let ghost nv = self.launcher.validators@.len();
        let mut out = String::new();
        let mut i: usize = 0;
        assert(rs.subrange(0, 0) =~= Seq::<Result<Seq<char>, Error>>::empty());
        while i < self.launcher.validators.len()
            invariant
                i <= nv,
                nv == self.launcher.validators@.len(),
                rs == self.service_results(),
                gather(rs.subrange(0, i as int)) == Ok::<Seq<char>, Error>(out@),
            decreases nv - i,
        {
            assert(rs.subrange(0, i + 1).drop_last() =~= rs.subrange(0, i as int));
            match self.validator_service(&self.launcher.validators[i]) {
                Ok(s) => {
                    out.append("\n");
                    out.append(s.as_str());
                },
                Err(e) => {
                    proof {
                        lemma_gather_stop(rs, i + 1);
                    }
                    return Err(e);
                },
            }
            i = i + 1;
        }
        let mut j: usize = 0;
        while j < self.launcher.collators.len()
            invariant
                j <= self.launcher.collators@.len(),
                nv == self.launcher.validators@.len(),
                rs == self.service_results(),
                gather(rs.subrange(0, nv + j)) == Ok::<Seq<char>, Error>(out@),
            decreases self.launcher.collators@.len() - j,
        {
            assert(rs.subrange(0, nv + j + 1).drop_last() =~= rs.subrange(0, nv + j));
            match self.collator_service(&self.launcher.collators[j]) {
                Ok(s) => {
                    out.append("\n");
                    out.append(s.as_str());
                },
                Err(e) => {
                    proof {
                        lemma_gather_stop(rs, nv + j + 1);
                    }
                    return Err(e);
                },
            }
            j = j + 1;
        }
        assert(rs.subrange(0, rs.len() as int) =~= rs);
        let mut text = "version: \"3.2\"\n\nservices:".to_owned();
        text.append(out.as_str());
        Ok(text)
    }

    /// Whether `s` is among the texts.
    fn contains_text(v: &Vec<String>, s: &String) -> (r: bool)
        ensures
            r == texts(v@).contains(s@),
    {
        let mut i: usize = 0;
        while i < v.len()
            invariant
                i <= v@.len(),
                forall|k: int| 0 <= k < i ==> v@[k]@ != s@,
            decreases v@.len() - i,
        {
            if v[i] == *s {
                assert(texts(v@)[i as int] == s@);
                return true;
            }
            i = i + 1;
        }
        assert forall|k: int| 0 <= k < texts(v@).len() implies texts(v@)[k] != s@ by {
            assert(texts(v@)[k] == v@[k]@);
        }
        false
    }

    /// The chain spec paths of all nodes without repeats, in the order they
    /// first occur, validators first; or the first node's error.
    pub fn get_unique_specs(&self) -> (r: Result<Vec<String>, Error>)
        ensures
            match gather_lists(self.spec_results()) {
                Ok(all) => texts_result(r) == Ok::<Seq<Seq<char>>, Error>(dedup(all)),
                Err(e) => r == Err::<Vec<String>, Error>(e),
            },
    {
        let ghost rs = self.spec_results();
        let ghost nv = self.launcher.validators@.len();
        let mut all: Vec<String> = Vec::new();
        let mut i: usize = 0;
        assert(rs.subrange(0, 0) =~= Seq::<Result<Seq<Seq<char>>, Error>>::empty());
        assert(texts(all@) =~= Seq::<Seq<char>>::empty());
        while i < self.launcher.validators.len()
            invariant
                i <= nv,
                nv == self.launcher.validators@.len(),
                rs == self.spec_results(),
                gather_lists(rs.subrange(0, i as int)) == Ok::<Seq<Seq<char>>, Error>(texts(all@)),
            decreases nv - i,
        {
            assert(rs.subrange(0, i + 1).drop_last() =~= rs.subrange(0, i as int));
            match self.launcher.validators[i].specs() {
                Ok(mut s) => {
                    let ghost before = texts(all@);
                    let ghost more = texts(s@);
                    all.append(&mut s);
                    assert(texts(all@) =~= before + more);
                },
                Err(e) => {
                    proof {
                        lemma_gather_lists_stop(rs, i + 1);
                    }
                    return Err(e);
                },
            }
            i = i + 1;
        }
        let mut j: usize = 0;
        while j < self.launcher.collators.len()
            invariant
                j <= self.launcher.collators@.len(),
                nv == self.launcher.validators@.len(),
                rs == self.spec_results(),
                gather_lists(rs.subrange(0, nv + j)) == Ok::<Seq<Seq<char>>, Error>(texts(all@)),
            decreases self.launcher.collators@.len() - j,
        {
            assert(rs.subrange(0, nv + j + 1).drop_last() =~= rs.subrange(0, nv + j));
            match self.launcher.collators[j].specs() {
                Ok(mut s) => {
                    let ghost before = texts(all@);
                    let ghost more = texts(s@);
                    all.append(&mut s);
                    assert(texts(all@) =~= before + more);
                },
                Err(e) => {
                    proof {
                        lemma_gather_lists_stop(rs, nv + j + 1);
                    }
                    return Err(e);
                },
            }
            j = j + 1;
        }
        assert(rs.subrange(0, rs.len() as int) =~= rs);
        let mut unique: Vec<String> = Vec::new();
        let mut k: usize = 0;
        assert(texts(unique@) =~= dedup(texts(all@).subrange(0, 0)));
        while k < all.len()
            invariant
                k <= all@.len(),
                texts(unique@) == dedup(texts(all@).subrange(0, k as int)),
            decreases all@.len() - k,
        {
            let ghost seen = texts(all@).subrange(0, k as int);
            assert(texts(all@).subrange(0, k + 1).drop_last() =~= seen);
            assert(texts(all@).subrange(0, k + 1).last() == all@[k as int]@);
            if !GenerateDocker::contains_text(&unique, &all[k]) {
                let ghost before = texts(unique@);
                unique.push(all[k].clone());
                assert(texts(unique@) =~= before.push(all@[k as int]@));
            }
            k = k + 1;
        }
        assert(texts(all@).subrange(0, all@.len() as int) =~= texts(all@));
        Ok(unique)
    }
}

} // verus!

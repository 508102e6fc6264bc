use vstd::prelude::*;
use vstd::string::StringExecFns;

use super::base::{BaseNode, BaseNodeView};
use super::collator::Collator;
use super::validator::Validator;
use crate::error::Error;
use crate::path_buffer::path_text;
use crate::util::texts;

verus! {

/// The words separated by single spaces.
pub open spec fn joined_words(ws: Seq<Seq<char>>) -> Seq<char>
    decreases ws.len(),
{
    if ws.len() == 0 {
        seq![]
    } else if ws.len() == 1 {
        ws[0]
    } else {
        joined_words(ws.drop_last()) + seq![' '] + ws.last()
    }
}

/// The words separated by single spaces.
pub fn join_words(ws: &Vec<String>) -> (r: String)
    ensures
        r@ == joined_words(texts(ws@)),
{
    let mut out = String::new();
    let mut i: usize = 0;
    while i < ws.len()
        invariant
            i <= ws@.len(),
            out@ == joined_words(texts(ws@.subrange(0, i as int))),
        decreases ws@.len() - i,
    {
        let ghost before = out@;
        proof {
            reveal_strlit(" ");
        }
        assert(texts(ws@.subrange(0, i + 1)).drop_last() =~= texts(ws@.subrange(0, i as int)));
        assert(texts(ws@.subrange(0, i + 1)).last() == ws@[i as int]@);
        if i > 0 {
            out.append(" ");
        }
        out.append(ws[i].as_str());
        i = i + 1;
        if i == 1 {
            assert(out@ =~= joined_words(texts(ws@.subrange(0, i as int))));
        } else {
            assert(out@ =~= before + seq![' '] + ws@[i - 1]@);
        }
    }
    assert(ws@.subrange(0, ws@.len() as int) =~= ws@);
    out
}

impl BaseNodeView {
    /// The node's command line as one text, as a container runs it: the
    /// binary, the node's arguments, and with a shared volume a `--mount`
    /// of it.
    pub open spec fn external_command(self, docker_volume: bool) -> Result<Seq<char>, Error> {
        match (path_text(self.bin), self.args_spec()) {
            (None, _) => Err(Error::InvalidPath),
            (_, Err(e)) => Err(e),
            (Some(bin), Ok(args)) => Ok(
                joined_words(
                    seq![bin] + args + if docker_volume {
                        seq!["--mount "@ + self.name + ":/specs"@]
                    } else {
                        seq![]
                    },
                ),
            ),
        }
    }
}

/// `a`, a space, and `b`; the first failure wins.
pub open spec fn then_words(a: Result<Seq<char>, Error>, b: Result<Seq<Seq<char>>, Error>) -> Result<
    Seq<char>,
    Error,
> {
    match a {
        Err(e) => Err(e),
        Ok(x) => match b {
            Err(e) => Err(e),
            Ok(ws) => Ok(x + seq![' '] + joined_words(ws)),
        },
    }
}

impl BaseNode {
    /// The node's command line as one text (see
    /// `BaseNodeView::external_command`).
    pub fn as_command_external(&self, docker_volume: bool) -> (r: Result<String, Error>)
        ensures
            match r {
                Ok(s) => self@.external_command(docker_volume) == Ok::<Seq<char>, Error>(s@),
                Err(e) => self@.external_command(docker_volume) == Err::<Seq<char>, Error>(e),
            },
    {
        let bin = match self.bin.to_string() {
            Ok(b) => b,
            Err(e) => return Err(e),
        };
        let mut args = match self.args() {
            Ok(a) => a,
            Err(e) => return Err(e),
        };
        let mut words: Vec<String> = vec![bin];
        words.append(&mut args);
        if docker_volume {
            let mut mount = "--mount ".to_owned();
            mount.append(self.name.as_str());
            mount.append(":/specs");
            words.push(mount);
        }
        let ghost expected = seq![path_text(self@.bin)->Some_0] + self@.args_spec()->Ok_0 + if docker_volume {
            seq!["--mount "@ + self@.name + ":/specs"@]
        } else {
            seq![]
        };
        assert(texts(words@) =~= expected);
        Ok(join_words(&words))
    }
}

impl Validator {
    /// The validator's command line as one text: the node's, then
    /// `--validator`.
    pub fn as_command_external(&self, docker_volume: bool) -> (r: Result<String, Error>)
        ensures
            match r {
                Ok(s) => then_words(
                    self@.external_command(docker_volume),
                    Ok(seq!["--validator"@]),
                ) == Ok::<Seq<char>, Error>(s@),
                Err(e) => then_words(
                    self@.external_command(docker_volume),
                    Ok(seq!["--validator"@]),
                ) == Err::<Seq<char>, Error>(e),
            },
    {
        let mut command = match self.0.as_command_external(docker_volume) {
            Ok(c) => c,
            Err(e) => return Err(e),
        };
        let own = match self.args() {
            Ok(a) => a,
            Err(e) => return Err(e),
        };
        proof {
            reveal_strlit(" ");
        }
        assert(texts(own@) == seq!["--validator"@]);
        let ghost head = command@;
        command.append(" ");
        let tail = join_words(&own);
        command.append(tail.as_str());
        assert(command@ == head + seq![' '] + joined_words(seq!["--validator"@]));
        Ok(command)
    }
}

impl Collator {
    /// The collator's command line as one text: the node's, then the relay
    /// part.
    pub fn as_command_external(&self, docker_volume: bool) -> (r: Result<String, Error>)
        ensures
            match r {
                Ok(s) => then_words(
                    self@.inner.external_command(docker_volume),
                    self@.relay.args_spec(),
                ) == Ok::<Seq<char>, Error>(s@),
                Err(e) => then_words(
                    self@.inner.external_command(docker_volume),
                    self@.relay.args_spec(),
                ) == Err::<Seq<char>, Error>(e),
            },
    {
        let mut command = match self.inner.as_command_external(docker_volume) {
            Ok(c) => c,
            Err(e) => return Err(e),
        };
        let own = match self.args() {
            Ok(a) => a,
            Err(e) => return Err(e),
        };
        proof {
            reveal_strlit(" ");
        }
        assert(texts(own@) == self@.relay.args_spec()->Ok_0);
        let ghost head = command@;
        command.append(" ");
        let tail = join_words(&own);
        command.append(tail.as_str());
        assert(command@ == head + seq![' '] + joined_words(texts(own@)));
        Ok(command)
    }
}

} // verus!

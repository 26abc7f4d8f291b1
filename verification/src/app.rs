//! The command-line surface: which flags are present and which option
//! values follow them. The process arguments arrive as plain byte
//! strings; every decision on them is made here.

use vstd::prelude::*;

use crate::bytes_util::{bytes_eq, contains_bytes, seq_holds};
use crate::dec::{parse_i64, parse_i64_spec};

verus! {

/// The process arguments, program name first.
pub struct App {
    pub args: Vec<Vec<u8>>,
}

/// The value following the first occurrence of `arg` that has one.
pub open spec fn arg_option(args: Seq<Seq<u8>>, arg: Seq<u8>) -> Option<Seq<u8>>
    decreases args.len(),
{
    if args.len() < 2 {
        None
    } else if args[0] == arg {
        Some(args[1])
    } else {
        arg_option(args.skip(1), arg)
    }
}

impl App {
    /// True when `flag` stands among the arguments.
    fn get_arg_flag(&self, flag: &[u8]) -> (r: bool)
        ensures
            r == seq_holds(self.args.deep_view(), flag@),
    {
        contains_bytes(&self.args, flag)
    }

    /// The value following `arg`, when there is one.
    #[verifier::loop_isolation(false)]
    fn get_arg_option(&self, arg: &[u8]) -> (r: Option<Vec<u8>>)
        ensures
            r.deep_view() == arg_option(self.args.deep_view(), arg@),
    {
        let ghost av = self.args.deep_view();
        proof {
            assert(av.len() == self.args@.len());
            assert(av.skip(0) =~= av);
        }
        let mut i: usize = 0;
        while i < self.args.len()
            invariant
                i <= self.args@.len(),
                arg_option(av.skip(i as int), arg@) == arg_option(av, arg@),
            decreases self.args@.len() - i,
        {
            let ghost tail = av.skip(i as int);
            proof {
                assert(tail[0] == av[i as int]);
                assert(av[i as int] == self.args@[i as int].deep_view());
                assert(self.args@[i as int].deep_view() =~= self.args@[i as int]@);
            }
            if i + 1 < self.args.len() {
                proof {
                    assert(tail[1] == av[i + 1]);
                    assert(av[i + 1] == self.args@[i + 1].deep_view());
                    assert(self.args@[i + 1].deep_view() =~= self.args@[i + 1]@);
                    assert(tail.skip(1) =~= av.skip(i + 1));
                }
                if bytes_eq(self.args[i].as_slice(), arg) {
                    let v = self.args[i + 1].clone();
                    proof {
                        assert(v.deep_view() =~= v@);
                    }
                    return Some(v);
                }
            } else {
                proof {
                    assert(tail.len() < 2);
                    assert(tail.skip(1) =~= av.skip(i + 1));
                }
            }
            i += 1;
        }
        proof {
            assert(av.skip(self.args@.len() as int).len() < 2);
        }
        None
    }

    /// True when the run was asked to detach into the background.
    pub fn detach(&self) -> (r: bool)
        ensures
            r == (seq_holds(self.args.deep_view(), seq![45u8, 100u8]) || seq_holds(
                self.args.deep_view(),
                seq![100u8, 101u8, 116u8, 97u8, 99u8, 104u8],
            )),
    {
        let short: Vec<u8> = vec![45, 100];
        let long: Vec<u8> = vec![100, 101, 116, 97, 99, 104];
        proof {
            assert(short@ =~= seq![45u8, 100u8]);
            assert(long@ =~= seq![100u8, 101u8, 116u8, 97u8, 99u8, 104u8]);
        }
        self.get_arg_flag(short.as_slice()) || self.get_arg_flag(long.as_slice())
    }

    /// True when help was asked for.
    pub fn help(&self) -> (r: bool)
        ensures
            r == (seq_holds(self.args.deep_view(), seq![45u8, 104u8]) || seq_holds(
                self.args.deep_view(),
                seq![104u8, 101u8, 108u8, 112u8],
            )),
    {
        let short: Vec<u8> = vec![45, 104];
        let long: Vec<u8> = vec![104, 101, 108, 112];
        proof {
            assert(short@ =~= seq![45u8, 104u8]);
            assert(long@ =~= seq![104u8, 101u8, 108u8, 112u8]);
        }
        self.get_arg_flag(short.as_slice()) || self.get_arg_flag(long.as_slice())
    }

    /// True when the daemon was asked to stop.
    pub fn stop(&self) -> (r: bool)
        ensures
            r == (seq_holds(self.args.deep_view(), seq![45u8, 115u8]) || seq_holds(
                self.args.deep_view(),
                seq![115u8, 116u8, 111u8, 112u8],
            )),
    {
        let short: Vec<u8> = vec![45, 115];
        let long: Vec<u8> = vec![115, 116, 111, 112];
        proof {
            assert(short@ =~= seq![45u8, 115u8]);
            assert(long@ =~= seq![115u8, 116u8, 111u8, 112u8]);
        }
        self.get_arg_flag(short.as_slice()) || self.get_arg_flag(long.as_slice())
    }

    /// True when only a configuration check was asked for.
    pub fn test(&self) -> (r: bool)
        ensures
            r == (seq_holds(self.args.deep_view(), seq![45u8, 116u8]) || seq_holds(
                self.args.deep_view(),
                seq![116u8, 101u8, 115u8, 116u8],
            )),
    {
        let short: Vec<u8> = vec![45, 116];
        let long: Vec<u8> = vec![116, 101, 115, 116];
        proof {
            assert(short@ =~= seq![45u8, 116u8]);
            assert(long@ =~= seq![116u8, 101u8, 115u8, 116u8]);
        }
        self.get_arg_flag(short.as_slice()) || self.get_arg_flag(long.as_slice())
    }

    /// True when the version was asked for.
    pub fn version(&self) -> (r: bool)
        ensures
            r == (seq_holds(self.args.deep_view(), seq![45u8, 118u8]) || seq_holds(
                self.args.deep_view(),
                seq![118u8, 101u8, 114u8, 115u8, 105u8, 111u8, 110u8],
            )),
    {
        let short: Vec<u8> = vec![45, 118];
        let long: Vec<u8> = vec![118, 101, 114, 115, 105, 111, 110];
        proof {
            assert(short@ =~= seq![45u8, 118u8]);
            assert(long@ =~= seq![118u8, 101u8, 114u8, 115u8, 105u8, 111u8, 110u8]);
        }
        self.get_arg_flag(short.as_slice()) || self.get_arg_flag(long.as_slice())
    }

    /// The two spellings of the detach flag, for the restart filter.
    pub fn detach_args(&self) -> (r: (Vec<u8>, Vec<u8>))
        ensures
            r.0@ == seq![45u8, 100u8],
            r.1@ == seq![100u8, 101u8, 116u8, 97u8, 99u8, 104u8],
    {
        let short: Vec<u8> = vec![45, 100];
        let long: Vec<u8> = vec![100, 101, 116, 97, 99, 104];
        proof {
            assert(short@ =~= seq![45u8, 100u8]);
            assert(long@ =~= seq![100u8, 101u8, 116u8, 97u8, 99u8, 104u8]);
        }
        (short, long)
    }

    /// The configuration file path given with `-c`, when one was.
    pub fn config(&self) -> (r: Option<Vec<u8>>)
        ensures
            r.deep_view() == arg_option(self.args.deep_view(), seq![45u8, 99u8]),
    {
        let flag: Vec<u8> = vec![45, 99];
        proof {
            assert(flag@ =~= seq![45u8, 99u8]);
        }
        self.get_arg_option(flag.as_slice())
    }

    /// True when a quick start was asked for.
    pub fn start(&self) -> (r: bool)
        ensures
            r == seq_holds(self.args.deep_view(), seq![115u8, 116u8, 97u8, 114u8, 116u8]),
    {
        let flag: Vec<u8> = vec![115, 116, 97, 114, 116];
        proof {
            assert(flag@ =~= seq![115u8, 116u8, 97u8, 114u8, 116u8]);
        }
        self.get_arg_flag(flag.as_slice())
    }

    /// The port given after `start`: absent is fine (`Ok(None)`); a
    /// value that does not parse as an integer comes back as the
    /// error.
    pub fn port(&self) -> (r: Result<Option<i64>, Vec<u8>>)
        ensures
            ({
                let opt = arg_option(self.args.deep_view(), seq![115u8, 116u8, 97u8, 114u8, 116u8]);
                match opt {
                    None => r == Result::<Option<i64>, Vec<u8>>::Ok(Option::<i64>::None),
                    Some(p) => match parse_i64_spec(p) {
                        Some(v) => r == Result::<Option<i64>, Vec<u8>>::Ok(Some(v)),
                        None => r matches Err(e) && e@ == p,
                    },
                }
            }),
    {
        let flag: Vec<u8> = vec![115, 116, 97, 114, 116];
        proof {
            assert(flag@ =~= seq![115u8, 116u8, 97u8, 114u8, 116u8]);
        }
        match self.get_arg_option(flag.as_slice()) {
            Some(p) => {
                proof {
                    assert(p.deep_view() =~= p@);
                }
                match parse_i64(p.as_slice()) {
                    Some(v) => Ok(Some(v)),
                    None => Err(p),
                }
            },
            None => Ok(None),
        }
    }
}

} // verus!

//! External tool invocations as plain values: a program name, its argument
//! list, and any extra environment assignments. The pipeline only builds
//! these; a driver outside the library spawns them.

use vstd::prelude::*;

verus! {

/// An environment assignment handed to a spawned tool.
#[derive(Debug)]
pub struct EnvVar {
    pub name: String,
    pub value: String,
}

/// The mathematical value of an environment assignment.
#[verifier::ext_equal]
pub struct EnvVarModel {
    pub name: Seq<char>,
    pub value: Seq<char>,
}

impl View for EnvVar {
    type V = EnvVarModel;

    open spec fn view(&self) -> EnvVarModel {
        EnvVarModel { name: self.name@, value: self.value@ }
    }
}

impl DeepView for EnvVar {
    type V = EnvVarModel;

    open spec fn deep_view(&self) -> EnvVarModel {
        self.view()
    }
}

/// One external tool invocation.
#[derive(Debug)]
pub struct Cmd {
    pub program: String,
    pub args: Vec<String>,
    pub env: Vec<EnvVar>,
}

/// The mathematical value of an invocation.
#[verifier::ext_equal]
pub struct CmdModel {
    pub program: Seq<char>,
    pub args: Seq<Seq<char>>,
    pub env: Seq<EnvVarModel>,
}

impl View for Cmd {
    type V = CmdModel;

    open spec fn view(&self) -> CmdModel {
        CmdModel { program: self.program@, args: self.args.deep_view(), env: self.env.deep_view() }
    }
}

impl DeepView for Cmd {
    type V = CmdModel;

    open spec fn deep_view(&self) -> CmdModel {
        self.view()
    }
}

/// An invocation without environment assignments.
pub open spec fn cmd_model(program: Seq<char>, args: Seq<Seq<char>>) -> CmdModel {
    CmdModel { program, args, env: Seq::<EnvVarModel>::empty() }
}

/// Appends one literal argument.
pub fn push_lit(args: &mut Vec<String>, s: &str)
    ensures
        final(args).deep_view() == old(args).deep_view().push(s@),
{
    args.push(s.to_owned());
    proof {
        assert(args.deep_view() =~= old(args).deep_view().push(s@));
    }
}

/// Appends one computed argument.
pub fn push_string(args: &mut Vec<String>, s: String)
    ensures
        final(args).deep_view() == old(args).deep_view().push(s@),
{
    args.push(s);
    proof {
        assert(args.deep_view() =~= old(args).deep_view().push(s@));
    }
}

/// A fresh, empty argument list.
pub fn new_args() -> (r: Vec<String>)
    ensures
        r.deep_view() == Seq::<Seq<char>>::empty(),
{
    let r: Vec<String> = Vec::new();
    proof {
        assert(r.deep_view() =~= Seq::<Seq<char>>::empty());
    }
    r
}

/// An invocation of `program` with the given arguments and no extra
/// environment.
pub fn cmd(program: &str, args: Vec<String>) -> (c: Cmd)
    ensures
        c@ == cmd_model(program@, args.deep_view()),
{
    let env: Vec<EnvVar> = Vec::new();
    let c = Cmd { program: program.to_owned(), args, env };
    proof {
        assert(c.env.deep_view() =~= Seq::<EnvVarModel>::empty());
    }
    c
}

/// An invocation with extra environment assignments.
pub fn cmd_with_env(program: &str, args: Vec<String>, env: Vec<EnvVar>) -> (c: Cmd)
    ensures
        c@.program == program@,
        c@.args == args.deep_view(),
        c@.env == env.deep_view(),
{
    Cmd { program: program.to_owned(), args, env }
}

/// One environment assignment.
pub fn env_var(name: &str, value: &str) -> (e: EnvVar)
    ensures
        e@ == (EnvVarModel { name: name@, value: value@ }),
{
    EnvVar { name: name.to_owned(), value: value.to_owned() }
}

/// The concatenation of two texts.
pub fn concat2(a: &str, b: &str) -> (r: String)
    ensures
        r@ == a@ + b@,
{
    let mut r = a.to_owned();
    r.append(b);
    r
}

/// The concatenation of three texts.
pub fn concat3(a: &str, b: &str, c: &str) -> (r: String)
    ensures
        r@ == a@ + b@ + c@,
{
    let mut r = a.to_owned();
    r.append(b);
    r.append(c);
    r
}

} // verus!

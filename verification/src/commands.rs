//! The Redis messages of the recording server and the Redis requests built
//! from them.

use vstd::prelude::*;
use vstd::string::*;
use vstd::utf8::encode_utf8;

verus! {

broadcast use vstd::string::group_string_axioms;

#[verifier::external_type_specification]
#[verifier::external_body]
pub struct ExCmd(redis::Cmd);

#[verifier::external_type_specification]
#[verifier::external_body]
pub struct ExPipeline(redis::Pipeline);

/// The arguments a `redis::Cmd` holds, in order, the command name first,
/// each as the bytes that were written for it.
pub uninterp spec fn cmd_args(c: redis::Cmd) -> Seq<Seq<u8>>;

/// The commands a `redis::Pipeline` holds, in order, each given by its arguments.
pub uninterp spec fn pipeline_commands(p: redis::Pipeline) -> Seq<Seq<Seq<u8>>>;

/// The positions of the pipeline's commands whose replies are dropped.
pub uninterp spec fn pipeline_ignored(p: redis::Pipeline) -> Set<int>;

/// `redis::cmd(name)`: a new command whose one argument is `name`.
#[verifier::external_body]
fn new_cmd(name: &str) -> (c: redis::Cmd)
    ensures
        cmd_args(c) == seq![encode_utf8(name@)],
{
    redis::cmd(name)
}

/// `Cmd::arg` with a string: appends its UTF-8 bytes as one more argument.
#[verifier::external_body]
fn cmd_push_arg(c: &mut redis::Cmd, a: &str)
    ensures
        cmd_args(*final(c)) == cmd_args(*old(c)).push(encode_utf8(a@)),
{
    c.arg(a);
}

/// `redis::pipe()`: a pipeline with no commands and nothing ignored.
#[verifier::external_body]
fn new_pipeline() -> (p: redis::Pipeline)
    ensures
        pipeline_commands(p) == Seq::<Seq<Seq<u8>>>::empty(),
        pipeline_ignored(p) == Set::<int>::empty(),
{
    redis::pipe()
}

/// `Pipeline::cmd(name)`: starts a new command whose one argument is `name`.
#[verifier::external_body]
fn pipeline_push_cmd(p: &mut redis::Pipeline, name: &str)
    ensures
        pipeline_commands(*final(p)) == pipeline_commands(*old(p)).push(seq![encode_utf8(name@)]),
        pipeline_ignored(*final(p)) == pipeline_ignored(*old(p)),
{
    p.cmd(name);
}

/// `Pipeline::arg` with a string: appends its UTF-8 bytes to the last command
/// (the pipeline panics when it has no command).
#[verifier::external_body]
fn pipeline_push_arg(p: &mut redis::Pipeline, a: &str)
    requires
        pipeline_commands(*old(p)).len() > 0,
    ensures
        pipeline_commands(*final(p)) == pipeline_commands(*old(p)).update(
            pipeline_commands(*old(p)).len() - 1,
            pipeline_commands(*old(p)).last().push(encode_utf8(a@)),
        ),
        pipeline_ignored(*final(p)) == pipeline_ignored(*old(p)),
{
    p.arg(a);
}

/// `Pipeline::ignore`: marks the last command's reply as dropped (no effect on
/// an empty pipeline).
#[verifier::external_body]
fn pipeline_ignore_last(p: &mut redis::Pipeline)
    ensures
        pipeline_commands(*final(p)) == pipeline_commands(*old(p)),
        pipeline_ignored(*final(p)) == if pipeline_commands(*old(p)).len() == 0 {
            pipeline_ignored(*old(p))
        } else {
            pipeline_ignored(*old(p)).insert(pipeline_commands(*old(p)).len() - 1)
        },
{
    p.ignore();
}

/// The Redis key under which a room's recording is stored.
pub open spec fn room_key_spec(room_name: Seq<char>) -> Seq<char> {
    "production::room_key::"@ + room_name
}

/// `format!("production::room_key::{}", room_name)`.
pub fn room_key(room_name: &str) -> (r: String)
    ensures
        r@ == room_key_spec(room_name@),
{
    let mut r = String::new();
    r.append("production::room_key::");
    r.append(room_name);
    r
}

/// Different rooms are stored under different keys.
pub proof fn room_keys_differ(a: Seq<char>, b: Seq<char>)
    requires
        a != b,
    ensures
        room_key_spec(a) != room_key_spec(b),
{
    let p = "production::room_key::"@;
    if room_key_spec(a) == room_key_spec(b) {
        assert(a =~= room_key_spec(a).subrange(p.len() as int, room_key_spec(a).len() as int));
        assert(b =~= room_key_spec(b).subrange(p.len() as int, room_key_spec(b).len() as int));
    }
}

/// A single Redis command: its name and first argument.
pub struct InfoCommandGet {
    pub command: String,
    pub arg: String,
    pub arg2: Option<String>,
}

/// A `SET` of `arg` to `arg2`.
pub struct InfoCommandSet {
    pub command: String,
    pub arg: String,
    pub arg2: String,
}

/// A `DEL` of `arg`.
pub struct InfoCommandDel {
    pub command: String,
    pub arg: String,
}

/// A `publish` of `message` on `channel`.
pub struct InfoCommandPublish {
    pub command: String,
    pub channel: String,
    pub message: String,
}

impl InfoCommandGet {
    /// The command sent for this message: `command` with the one argument `arg`
    /// (`arg2` is not sent).
    pub fn to_cmd(&self) -> (c: redis::Cmd)
        ensures
            cmd_args(c) == seq![encode_utf8(self.command@), encode_utf8(self.arg@)],
    {
        let mut c = new_cmd(self.command.as_str());
        cmd_push_arg(&mut c, self.arg.as_str());
        c
    }
}


impl InfoCommandSet {
    /// The pipeline sent for this message: one `SET arg arg2` whose reply is
    /// dropped (`command` is not sent).
    pub fn to_pipeline(&self) -> (p: redis::Pipeline)
        ensures
            pipeline_commands(p) == seq![
                seq![encode_utf8("SET"@), encode_utf8(self.arg@), encode_utf8(self.arg2@)],
            ],
            pipeline_ignored(p) == set![0int],
    {
        let mut p = new_pipeline();
        pipeline_push_cmd(&mut p, "SET");
        pipeline_push_arg(&mut p, self.arg.as_str());
        pipeline_push_arg(&mut p, self.arg2.as_str());
        pipeline_ignore_last(&mut p);
        assert(pipeline_commands(p) =~~= seq![
            seq![encode_utf8("SET"@), encode_utf8(self.arg@), encode_utf8(self.arg2@)],
        ]);
        assert(pipeline_ignored(p) =~= set![0int]);
        p
    }
}

impl InfoCommandDel {
    /// The pipeline sent for this message: one `DEL arg` whose reply is dropped
    /// (`command` is not sent).
    pub fn to_pipeline(&self) -> (p: redis::Pipeline)
        ensures
            pipeline_commands(p) == seq![seq![encode_utf8("DEL"@), encode_utf8(self.arg@)]],
            pipeline_ignored(p) == set![0int],
    {
        let mut p = new_pipeline();
        pipeline_push_cmd(&mut p, "DEL");
        pipeline_push_arg(&mut p, self.arg.as_str());
        pipeline_ignore_last(&mut p);
        assert(pipeline_commands(p) =~~= seq![seq![encode_utf8("DEL"@), encode_utf8(self.arg@)]]);
        assert(pipeline_ignored(p) =~= set![0int]);
        p
    }
}

impl InfoCommandPublish {
    /// The pipeline sent for this message: one `publish channel message` whose
    /// reply is dropped (`command` is not sent).
    pub fn to_pipeline(&self) -> (p: redis::Pipeline)
        ensures
            pipeline_commands(p) == seq![
                seq![
                    encode_utf8("publish"@),
                    encode_utf8(self.channel@),
                    encode_utf8(self.message@),
                ],
            ],
            pipeline_ignored(p) == set![0int],
    {
        let mut p = new_pipeline();
        pipeline_push_cmd(&mut p, "publish");
        pipeline_push_arg(&mut p, self.channel.as_str());
        pipeline_push_arg(&mut p, self.message.as_str());
        pipeline_ignore_last(&mut p);
        assert(pipeline_commands(p) =~~= seq![
            seq![encode_utf8("publish"@), encode_utf8(self.channel@), encode_utf8(self.message@)],
        ]);
        assert(pipeline_ignored(p) =~= set![0int]);
        p
    }
}

} // verus!

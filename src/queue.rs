use vstd::prelude::*;

use crate::codec::Codec;
use crate::config::{command_name, names_of, QueueConfig};
use crate::error::{IOError, QueueError};

verus! {

/// An item taken from a queue: the queue it came from and its decoded payload.
#[derive(Debug)]
pub struct QueueEntry<T> {
    pub queue_name: String,
    pub data: T,
}

/// One argument of a store command.
#[derive(Clone, Debug, PartialEq, Eq)]
pub enum Arg {
    Text(String),
    Bytes(Vec<u8>),
    Signed(i64),
    Unsigned(u64),
}

/// What an argument means: text, raw bytes, or a number written in decimal.
pub ghost enum ArgModel {
    Text(Seq<char>),
    Bytes(Seq<u8>),
    Int(int),
}

impl View for Arg {
    type V = ArgModel;

    open spec fn view(&self) -> ArgModel {
        match self {
            Arg::Text(s) => ArgModel::Text(s@),
            Arg::Bytes(b) => ArgModel::Bytes(b@),
            Arg::Signed(n) => ArgModel::Int(*n as int),
            Arg::Unsigned(n) => ArgModel::Int(*n as int),
        }
    }
}

/// A command for the store: its name and its arguments in order.
#[derive(Clone, Debug)]
pub struct Command {
    pub name: String,
    pub args: Vec<Arg>,
}

/// A command as its name and the meaning of each argument.
pub ghost struct CommandModel {
    pub name: Seq<char>,
    pub args: Seq<ArgModel>,
}

impl View for Command {
    type V = CommandModel;

    open spec fn view(&self) -> CommandModel {
        CommandModel { name: self.name@, args: self.args@.map_values(|a: Arg| a@) }
    }
}

/// Each name as a text argument.
pub open spec fn text_args(names: Seq<Seq<char>>) -> Seq<ArgModel> {
    names.map_values(|n: Seq<char>| ArgModel::Text(n))
}

/// Inserts `data` at `score` into the queue `queue`.
pub open spec fn zadd_model(queue: Seq<char>, score: int, data: Seq<u8>) -> CommandModel {
    CommandModel {
        name: "ZADD"@,
        args: seq![ArgModel::Text(queue), ArgModel::Int(score), ArgModel::Bytes(data)],
    }
}

/// Removes the extremum over all of `queues` at once, waiting at most
/// `timeout` seconds; a timeout of 0 waits for as long as it takes.
pub open spec fn pop_model(rule: Seq<char>, queues: Seq<Seq<char>>, timeout: int) -> CommandModel {
    CommandModel { name: rule, args: text_args(queues).push(ArgModel::Int(timeout)) }
}

/// The number of items in `queue`.
pub open spec fn zcard_model(queue: Seq<char>) -> CommandModel {
    CommandModel { name: "ZCARD"@, args: seq![ArgModel::Text(queue)] }
}

/// Deletes all of `queues`; a queue that is not there is no error.
pub open spec fn del_model(queues: Seq<Seq<char>>) -> CommandModel {
    CommandModel { name: "DEL"@, args: text_args(queues) }
}

/// What a client knows besides its connection: the queues it serves, the
/// pop command its rule calls for, and the payload format.
pub ghost struct ProtocolModel {
    pub names: Seq<Seq<char>>,
    pub pop_command: Seq<char>,
    pub codec: Codec,
}

/// The protocol half of a queue client. It decides what to send to the store
/// and what a reply means; the caller owns the connection and sends.
///
/// The queue names are fixed for the client's lifetime.
#[derive(Clone, Debug)]
pub struct QueueProtocol {
    queue_names: Vec<String>,
    pop_rule: String,
    codec: Codec,
}

impl View for QueueProtocol {
    type V = ProtocolModel;

    closed spec fn view(&self) -> ProtocolModel {
        ProtocolModel {
            names: names_of(self.queue_names@),
            pop_command: self.pop_rule@,
            codec: self.codec,
        }
    }
}

/// The entry, or the decoding failure with the raw bytes kept, for a payload
/// taken from `queue_name` whose decoding gave `decoded`.
pub open spec fn entry_of<T>(
    queue_name: String,
    data: Vec<u8>,
    decoded: Result<T, std::io::Error>,
) -> Result<Option<QueueEntry<T>>, QueueError> {
    match decoded {
        Ok(v) => Ok(Some(QueueEntry { queue_name, data: v })),
        Err(e) => Err(QueueError::IOError(IOError { data: Some(data), inner: e })),
    }
}

/// Copies a list of names, element by element.
fn copy_names(names: &Vec<String>) -> (r: Vec<String>)
    ensures
        r@ == names@,
{
    let mut r: Vec<String> = Vec::new();
    let mut i: usize = 0;
    while i < names.len()
        invariant
            i <= names.len(),
            r@ == names@.subrange(0, i as int),
        decreases names.len() - i,
    {
        r.push(names[i].clone());
        i = i + 1;
    }
    assert(r@ =~= names@);
    r
}

/// Each name as a text argument, in order.
fn name_args(names: &Vec<String>) -> (r: Vec<Arg>)
    ensures
        r@.map_values(|a: Arg| a@) == text_args(names_of(names@)),
{
    let mut r: Vec<Arg> = Vec::new();
    let mut i: usize = 0;
    while i < names.len()
        invariant
            i <= names.len(),
            r@.len() == i,
            forall|j: int| 0 <= j < i ==> (#[trigger] r@[j])@ == ArgModel::Text(names@[j]@),
        decreases names.len() - i,
    {
        r.push(Arg::Text(names[i].clone()));
        i = i + 1;
    }
    assert(r@.map_values(|a: Arg| a@) =~= text_args(names_of(names@)));
    r
}

impl QueueProtocol {
    /// The protocol of a client built from `config`.
    pub fn new(config: &QueueConfig) -> (r: Self)
        ensures
            r@.names == names_of(config.queue_names@),
            r@.pop_command == command_name(config.pop_rule),
            r@.codec == config.codec,
    {
        QueueProtocol {
            queue_names: copy_names(&config.queue_names),
            pop_rule: config.pop_rule.into_command(),
            codec: config.codec,
        }
    }

    /// The queue that pushes go to: the first name.
    pub fn push_target(&self) -> (r: &String)
        requires
            self@.names.len() > 0,
        ensures
            r@ == self@.names[0],
    {
        &self.queue_names[0]
    }

    /// The insert of already encoded `data` at `priority` into the first
    /// queue, with that queue's name.
    pub fn push_command(&self, data: Vec<u8>, priority: i32) -> (r: (String, Command))
        requires
            self@.names.len() > 0,
        ensures
            r.0@ == self@.names[0],
            r.1@ == zadd_model(self@.names[0], priority as int, data@),
    {
        let target = self.queue_names[0].clone();
        let ghost d = data@;
        let args = vec![Arg::Text(target.clone()), Arg::Signed(priority as i64), Arg::Bytes(data)];
        let cmd = Command { name: "ZADD".to_owned(), args };
        assert(cmd@.args =~= zadd_model(self@.names[0], priority as int, d).args);
        (target, cmd)
    }

    /// Encodes `data` with the client's format and makes its insert command.
    /// An encoding failure comes back with no bytes attached.
    pub fn encode_push<T: ?Sized + serde::Serialize>(&self, data: &T, priority: i32) -> (r: Result<
        (String, Command),
        QueueError,
    >)
        requires
            self@.names.len() > 0,
        ensures
            match r {
                Ok((name, cmd)) => {
                    &&& name@ == self@.names[0]
                    &&& exists|bytes: Seq<u8>| cmd@ == zadd_model(self@.names[0], priority as int, bytes)
                },
                Err(e) => e matches QueueError::IOError(io) && io.data is None,
            },
    {
        match self.codec.serialize(data) {
            Ok(bytes) => Ok(self.push_command(bytes, priority)),
            Err(e) => Err(QueueError::IOError(IOError::new(None, e))),
        }
    }

    /// The blocking pop over all the client's queues, bounded by
    /// `timeout_secs` seconds.
    pub fn pop_command(&self, timeout_secs: u64) -> (r: Command)
        ensures
            r@ == pop_model(self@.pop_command, self@.names, timeout_secs as int),
    {
        let mut args = name_args(&self.queue_names);
        let ghost before = args@;
        args.push(Arg::Unsigned(timeout_secs));
        assert(args@.map_values(|a: Arg| a@) =~= before.map_values(|a: Arg| a@).push(
            ArgModel::Int(timeout_secs as int),
        ));
        Command { name: self.pop_rule.clone(), args }
    }

    /// The count command for `queue_name`, or for the first queue when none
    /// is given, with the name it counts.
    pub fn length_command(&self, queue_name: Option<String>) -> (r: (String, Command))
        requires
            queue_name is Some || self@.names.len() > 0,
        ensures
            r.0@ == (match queue_name {
                Some(n) => n@,
                None => self@.names[0],
            }),
            r.1@ == zcard_model(r.0@),
    {
        let name = match queue_name {
            Some(n) => n,
            None => self.queue_names[0].clone(),
        };
        let cmd = Command { name: "ZCARD".to_owned(), args: vec![Arg::Text(name.clone())] };
        assert(cmd@.args =~= zcard_model(name@).args);
        (name, cmd)
    }

    /// The delete of all the client's queues.
    pub fn clean_command(&self) -> (r: Command)
        ensures
            r@ == del_model(self@.names),
    {
        Command { name: "DEL".to_owned(), args: name_args(&self.queue_names) }
    }

    /// The outcome of a pop whose payload `data`, taken from `queue_name`,
    /// decoded to `decoded`.
    pub fn entry_from_decoded<T>(
        queue_name: String,
        data: Vec<u8>,
        decoded: Result<T, std::io::Error>,
    ) -> (r: Result<Option<QueueEntry<T>>, QueueError>)
        ensures
            r == entry_of(queue_name, data, decoded),
    {
        match decoded {
            Ok(v) => Ok(Some(QueueEntry { queue_name, data: v })),
            Err(e) => Err(QueueError::IOError(IOError::new(Some(data), e))),
        }
    }

    /// The outcome of a pop whose reply was `reply`: the queue name, the
    /// payload and the score, or nothing when the timeout ran out.
    /// The entry names the queue the reply came from; a payload that does not
    /// decode is returned inside the error.
    pub fn decode_reply<T: serde::de::DeserializeOwned>(
        &self,
        reply: Option<(String, Vec<u8>, String)>,
    ) -> (r: Result<Option<QueueEntry<T>>, QueueError>)
        ensures
            reply is None ==> r matches Ok(None),
            reply matches Some((q, data, _)) ==> exists|d: Result<T, std::io::Error>|
                r == #[trigger] entry_of(q, data, d),
    {
        match reply {
            Some((queue_name, data, _score)) => {
                let decoded = self.codec.deserialize::<T>(data.as_slice());
                let r = Self::entry_from_decoded(queue_name, data, decoded);
                assert(r == entry_of(queue_name, data, decoded));
                r
            },
            None => Ok(None),
        }
    }
}

/// The whole seconds a pop waits for a timeout of `secs` seconds and
/// `subsec_nanos` nanoseconds: rounded up, so that a short positive timeout
/// does not become 0, which would wait forever. A zero timeout stays 0.
pub fn timeout_secs(secs: u64, subsec_nanos: u32) -> (r: u64)
    ensures
        r == (if subsec_nanos > 0 && secs < u64::MAX {
            secs + 1
        } else {
            secs as int
        }),
        (secs > 0 || subsec_nanos > 0) ==> r > 0,
{
    if subsec_nanos > 0 && secs < u64::MAX {
        secs + 1
    } else {
        secs
    }
}

/// What the blocking `pop` does after one bounded pop.
pub enum PopStep<T> {
    /// Return this result to the caller.
    Done(Result<QueueEntry<T>, QueueError>),
    /// Nothing came before the timeout: pop again with the same timeout.
    Retry,
}

/// The blocking `pop`'s decision on the result of one bounded pop: an entry
/// or an error ends it, an expired timeout is retried.
pub fn next_pop_step<T>(result: Result<Option<QueueEntry<T>>, QueueError>) -> (r: PopStep<T>)
    ensures
        match result {
            Ok(Some(e)) => r == PopStep::Done(Ok::<QueueEntry<T>, QueueError>(e)),
            Ok(None) => r is Retry,
            Err(e) => r == PopStep::<T>::Done(Err(e)),
        },
{
    match result {
        Ok(Some(e)) => PopStep::Done(Ok(e)),
        Ok(None) => PopStep::Retry,
        Err(e) => PopStep::Done(Err(e)),
    }
}

} // verus!

//! The exporter: one scrape reads the store's status text and brings the
//! gauges up to date.
//!
//! The exporter neither talks to the store nor computes with numbers. Its
//! caller asks the store and hands over what came of it (`Fetched`), and
//! hands over two functions: one that reads a text as a number and one that
//! adds two numbers, both over bit patterns (see `metric`). What a scrape
//! leaves in the gauges is stated for every pair of mathematical functions
//! that the two compute; the role, which depends on neither, is stated
//! outright.

use crate::error::{MyError, Result};
use crate::metric::{
    liveness_sample, metric_of, registry, registry_samples, samples_of, Gauges, Metric, Sample,
    ONE, TWO, ZERO,
};
use crate::parser::{info_triples, parse_info, triples_of, ParsedLine, Triple};
use crate::partition::{decoded, split};
use crate::text::{begins_with, same, starts_with};
use vstd::prelude::*;
use vstd::slice::slice_to_vec;
use vstd::string::StringSliceAdditionalSpecFns;

verus! {

/// `redis::Client`, the handle from which connections to the store are
/// opened. The exporter keeps it for its caller; nothing is claimed of it.
#[verifier::external_type_specification]
#[verifier::external_body]
pub struct ExClient(redis::Client);

/// `parse` can be called on every text.
pub open spec fn can_read<P: Fn(&[u8]) -> Option<u64>>(parse: &P) -> bool {
    forall|text: &[u8]| call_requires(*parse, (text,))
}

/// `plus` can be called on every two numbers.
pub open spec fn can_add<A: Fn(u64, u64) -> u64>(plus: &A) -> bool {
    forall|a: u64, b: u64| call_requires(*plus, (a, b))
}

/// Whatever `parse` returns for a text is what `num` gives for it.
pub open spec fn reads_as<P: Fn(&[u8]) -> Option<u64>>(
    parse: &P,
    num: spec_fn(Seq<u8>) -> Option<u64>,
) -> bool {
    forall|text: &[u8], number: Option<u64>| #[trigger]
        call_ensures(*parse, (text,), number) ==> number == num(text@)
}

/// Whatever `plus` returns for two numbers is what `sum` gives for them.
pub open spec fn adds_as<A: Fn(u64, u64) -> u64>(plus: &A, sum: spec_fn(u64, u64) -> u64) -> bool {
    forall|a: u64, b: u64, total: u64| #[trigger]
        call_ensures(*plus, (a, b), total) ==> total == sum(a, b)
}

/// The key whose value is the node's role.
pub open spec fn role_key() -> Seq<u8> {
    "role".spec_bytes()
}

/// The role of a node that is a master.
pub open spec fn master_role() -> Seq<u8> {
    "master".spec_bytes()
}

/// The section whose lines describe the partitions.
pub open spec fn keyspace_section() -> Seq<u8> {
    "Keyspace".spec_bytes()
}

/// What the key of a partition's line begins with.
pub open spec fn partition_prefix() -> Seq<u8> {
    "db".spec_bytes()
}

/// The field that holds a partition's number of keys.
pub open spec fn keys_field() -> Seq<u8> {
    "keys".spec_bytes()
}

/// The field that holds a partition's average time to live.
pub open spec fn ttl_field() -> Seq<u8> {
    "avg_ttl".spec_bytes()
}

/// The number that a value stands for by its word alone: `1.0` for `ok` and
/// `true`, `2.0` for `err`, `fail` and `false`.
pub open spec fn flag_of(value: Seq<u8>) -> Option<u64> {
    if value == "ok".spec_bytes() || value == "true".spec_bytes() {
        Some(ONE)
    } else if value == "err".spec_bytes() || value == "fail".spec_bytes() || value
        == "false".spec_bytes() {
        Some(TWO)
    } else {
        None
    }
}

/// The number to store for a value, `number` being what the value reads as:
/// the value's flag if it is one of the five words, else `number`.
pub open spec fn coerced(value: Seq<u8>, number: Option<u64>) -> Option<u64> {
    match flag_of(value) {
        Some(flag) => Some(flag),
        None => number,
    }
}

/// What a gauge holds once `number` was to be stored in it: the number, or
/// what it held where there is none.
pub open spec fn stored(number: Option<u64>, held: u64) -> u64 {
    match number {
        Some(value) => value,
        None => held,
    }
}

/// The number in the field `name`: what the field's text reads as, and
/// `0.0` where there is no such field.
pub open spec fn field_number(
    fields: Map<Seq<u8>, Seq<u8>>,
    name: Seq<u8>,
    num: spec_fn(Seq<u8>) -> Option<u64>,
) -> Option<u64> {
    if fields.contains_key(name) {
        num(fields[name])
    } else {
        Some(ZERO)
    }
}

/// What one keyspace line adds to the totals: its number of keys and its
/// average time to live. A line whose key does not begin with `db` adds
/// `0.0` to both. A line with a field that is no number adds nothing at all.
pub open spec fn keyspace_metric(
    key: Seq<u8>,
    value: Seq<u8>,
    num: spec_fn(Seq<u8>) -> Option<u64>,
) -> Option<(u64, u64)> {
    if begins_with(key, partition_prefix()) {
        let fields = decoded(value);
        match (field_number(fields, keys_field(), num), field_number(fields, ttl_field(), num)) {
            (Some(keys), Some(ttl)) => Some((keys, ttl)),
            _ => None,
        }
    } else {
        Some((ZERO, ZERO))
    }
}

/// The text that keeps a keyspace line from being counted: that of `keys`
/// if it is no number, else that of `avg_ttl`.
pub open spec fn unread_field(value: Seq<u8>, num: spec_fn(Seq<u8>) -> Option<u64>) -> Seq<u8> {
    let fields = decoded(value);
    if field_number(fields, keys_field(), num) is None {
        fields[keys_field()]
    } else {
        fields[ttl_field()]
    }
}

/// What is carried from line to line during one scrape.
#[derive(Clone, Copy, Debug)]
pub struct Pass {
    /// The gauges as the lines so far have left them.
    pub gauges: Gauges,
    /// Whether the role seen last is that of a master.
    pub master: bool,
    /// The number of keys, added up over the partitions so far.
    pub total_keys: u64,
    /// The average time to live, added up over the partitions so far.
    pub total_avg_ttl: u64,
}

/// The pass before the first line: no role seen yet, both totals at `0.0`.
pub open spec fn begin(gauges: Gauges) -> Pass {
    Pass { gauges, master: false, total_keys: ZERO, total_avg_ttl: ZERO }
}

/// The pass after one more line.
///
/// The key `role` sets the role and is stored nowhere. In the keyspace
/// section a line is added to the totals if the node is a master, and is
/// otherwise ignored. Any other line is stored under its key if the
/// registry has a gauge for it and its value gives a number.
pub open spec fn step(
    pass: Pass,
    line: Triple,
    num: spec_fn(Seq<u8>) -> Option<u64>,
    sum: spec_fn(u64, u64) -> u64,
) -> Pass {
    if line.key == role_key() {
        Pass { master: line.value == master_role(), ..pass }
    } else if line.section == keyspace_section() {
        if pass.master {
            match keyspace_metric(line.key, line.value, num) {
                Some((keys, ttl)) => Pass {
                    total_keys: sum(pass.total_keys, keys),
                    total_avg_ttl: sum(pass.total_avg_ttl, ttl),
                    ..pass
                },
                None => pass,
            }
        } else {
            pass
        }
    } else {
        match metric_of(line.key) {
            Some(metric) => Pass {
                gauges: pass.gauges.with(
                    metric,
                    stored(coerced(line.value, num(line.value)), pass.gauges.get(metric)),
                ),
                ..pass
            },
            None => pass,
        }
    }
}

/// The pass after all of `lines`, taken in their order.
pub open spec fn run(
    lines: Seq<Triple>,
    pass: Pass,
    num: spec_fn(Seq<u8>) -> Option<u64>,
    sum: spec_fn(u64, u64) -> u64,
) -> Pass
    decreases lines.len(),
{
    if lines.len() == 0 {
        pass
    } else {
        step(run(lines.drop_last(), pass, num, sum), lines.last(), num, sum)
    }
}

/// The gauges at the end of a pass: the two totals and the role are written
/// into their gauges.
pub open spec fn finished(pass: Pass) -> Gauges {
    pass.gauges.with(Metric::DbSize, pass.total_keys).with(
        Metric::AvgTtl,
        pass.total_avg_ttl,
    ).with(Metric::RoleMaster, if pass.master { ONE } else { ZERO })
}

/// The gauges after a scrape that read `lines`.
pub open spec fn scraped(
    gauges: Gauges,
    lines: Seq<Triple>,
    num: spec_fn(Seq<u8>) -> Option<u64>,
    sum: spec_fn(u64, u64) -> u64,
) -> Gauges {
    finished(run(lines, begin(gauges), num, sum))
}

/// The value of the last of `lines` whose key is `role`.
pub open spec fn role_seen(lines: Seq<Triple>) -> Option<Seq<u8>>
    decreases lines.len(),
{
    if lines.len() == 0 {
        None
    } else if lines.last().key == role_key() {
        Some(lines.last().value)
    } else {
        role_seen(lines.drop_last())
    }
}

/// Whether the role seen last in `lines` is that of a master.
pub open spec fn master_seen(lines: Seq<Triple>) -> bool {
    role_seen(lines) == Some(master_role())
}

/// The gauges `after` are what a scrape that read `text` makes of the
/// gauges `before`, with `parse` to read the numbers and `plus` to add them.
pub open spec fn read_into<P: Fn(&[u8]) -> Option<u64>, A: Fn(u64, u64) -> u64>(
    before: Gauges,
    after: Gauges,
    text: Seq<u8>,
    parse: &P,
    plus: &A,
) -> bool {
    &&& after.role == (if master_seen(info_triples(text)) {
        ONE
    } else {
        ZERO
    })
    &&& forall|num: spec_fn(Seq<u8>) -> Option<u64>, sum: spec_fn(u64, u64) -> u64|
        #![trigger reads_as(parse, num), adds_as(plus, sum)]
        reads_as(parse, num) && adds_as(plus, sum) ==> after == scraped(
            before,
            info_triples(text),
            num,
            sum,
        )
}

/// Whether the role is that of a master. Capitals count.
pub fn is_master(role: &[u8]) -> (r: bool)
    ensures
        r == (role@ == master_role()),
{
    same(role, "master".as_bytes())
}

/// Whether the key is the one whose value is the node's role. Capitals count.
pub fn is_role(key: &[u8]) -> (r: bool)
    ensures
        r == (key@ == role_key()),
{
    same(key, "role".as_bytes())
}

/// Stores in `gauge` the number that the value `v` stands for: its flag if
/// it is one of the five words, else what `parse` reads it as. Where `parse`
/// reads no number, `gauge` is left as it is.
pub fn parse_and_set<P: Fn(&[u8]) -> Option<u64>>(v: &[u8], gauge: &mut u64, parse: &P)
    requires
        can_read(parse),
    ensures
        match flag_of(v@) {
            Some(flag) => *final(gauge) == flag,
            None => exists|number: Option<u64>|
                call_ensures(*parse, (v,), number) && *final(gauge) == stored(number, *old(gauge)),
        },
{
    if same(v, "ok".as_bytes()) || same(v, "true".as_bytes()) {
        *gauge = ONE;
    } else if same(v, "err".as_bytes()) || same(v, "fail".as_bytes()) || same(
        v,
        "false".as_bytes(),
    ) {
        *gauge = TWO;
    } else {
        let number = parse(v);
        match number {
            Some(value) => {
                *gauge = value;
            },
            None => {},
        }
        assert(call_ensures(*parse, (v,), number) && *gauge == stored(number, *old(gauge)));
    }
}

/// What the keyspace line `key:value` adds to the totals: the number of
/// keys and the average time to live of its partition.
///
/// The line is refused, with the text at fault, if one of the two fields is
/// there and is no number.
pub fn set_keyspace_metric<P: Fn(&[u8]) -> Option<u64>>(key: &[u8], value: &[u8], parse: &P) -> (r:
    Result<(u64, u64)>)
    requires
        can_read(parse),
    ensures
        !begins_with(key@, partition_prefix()) ==> r == Ok::<(u64, u64), MyError>((ZERO, ZERO)),
        r matches Err(error) ==> error is ParseFloat,
        forall|num: spec_fn(Seq<u8>) -> Option<u64>| #[trigger]
            reads_as(parse, num) ==> match keyspace_metric(key@, value@, num) {
                Some(pair) => r == Ok::<(u64, u64), MyError>(pair),
                None => r matches Err(MyError::ParseFloat(text)) && text@ == unread_field(
                    value@,
                    num,
                ),
            },
{
    let mut db_size: u64 = ZERO;
    let mut avg_ttl: u64 = ZERO;
    if starts_with(key, "db".as_bytes()) {
        let fields = split(value);
        match fields.get("keys".as_bytes()) {
            Some(text) => match parse(text) {
                Some(number) => {
                    db_size = number;
                },
                None => {
                    return Err(MyError::ParseFloat(slice_to_vec(text)));
                },
            },
            None => {},
        }
        match fields.get("avg_ttl".as_bytes()) {
            Some(text) => match parse(text) {
                Some(number) => {
                    avg_ttl = number;
                },
                None => {
                    return Err(MyError::ParseFloat(slice_to_vec(text)));
                },
            },
            None => {},
        }
    }
    Ok((db_size, avg_ttl))
}

impl Pass {
    /// The pass before the first line.
    pub fn new(gauges: Gauges) -> (r: Pass)
        ensures
            r == begin(gauges),
    {
        Pass { gauges, master: false, total_keys: ZERO, total_avg_ttl: ZERO }
    }

    /// Takes one more line into the pass.
    pub fn take<P: Fn(&[u8]) -> Option<u64>, A: Fn(u64, u64) -> u64>(
        &mut self,
        line: &ParsedLine,
        parse: &P,
        plus: &A,
    )
        requires
            can_read(parse),
            can_add(plus),
        ensures
            final(self).master == (if line@.key == role_key() {
                line@.value == master_role()
            } else {
                old(self).master
            }),
            forall|num: spec_fn(Seq<u8>) -> Option<u64>, sum: spec_fn(u64, u64) -> u64|
                #![trigger reads_as(parse, num), adds_as(plus, sum)]
                reads_as(parse, num) && adds_as(plus, sum) ==> *final(self) == step(
                    *old(self),
                    line@,
                    num,
                    sum,
                ),
    {
        if is_role(line.key.as_slice()) {
            self.master = is_master(line.value.as_slice());
        } else if same(line.section.as_slice(), "Keyspace".as_bytes()) {
            if self.master {
                match set_keyspace_metric(line.key.as_slice(), line.value.as_slice(), parse) {
                    Ok((keys, ttl)) => {
                        self.total_keys = plus(self.total_keys, keys);
                        self.total_avg_ttl = plus(self.total_avg_ttl, ttl);
                    },
                    Err(_) => {},
                }
            }
        } else {
            match Metric::of_key(line.key.as_slice()) {
                Some(metric) => {
                    let mut held: u64 = self.gauges.value(metric);
                    parse_and_set(line.value.as_slice(), &mut held, parse);
                    self.gauges.set(metric, held);
                },
                None => {},
            }
        }
    }

    /// Ends the pass: the gauges, with the totals and the role written in.
    pub fn finish(self) -> (r: Gauges)
        ensures
            r == finished(self),
    {
        let mut gauges = self.gauges;
        gauges.set(Metric::DbSize, self.total_keys);
        gauges.set(Metric::AvgTtl, self.total_avg_ttl);
        gauges.set(Metric::RoleMaster, if self.master { ONE } else { ZERO });
        gauges
    }
}

/// What came of asking the store for its status.
#[derive(Debug)]
pub enum Fetched {
    /// No connection to the store could be had.
    Unreachable,
    /// The store was reached and the command failed.
    Failed(MyError),
    /// The store's answer: the status text.
    Info(Vec<u8>),
}

/// The gauges of one store and the handle to reach it.
#[derive(Debug)]
pub struct Exporter {
    client: redis::Client,
    up: u64,
    gauges: Gauges,
}

impl Exporter {
    /// The handle that the exporter was made with.
    pub closed spec fn client(&self) -> redis::Client {
        self.client
    }

    /// What the liveness gauge holds.
    pub closed spec fn up(&self) -> u64 {
        self.up
    }

    /// What the gauges of the registry hold.
    pub closed spec fn gauges(&self) -> Gauges {
        self.gauges
    }

    /// An exporter for the store behind `client`, every gauge at `0.0`.
    pub fn new(client: redis::Client) -> (r: Self)
        ensures
            r.client() == client,
            r.up() == ZERO,
            r.gauges() == Gauges::zeroed(),
    {
        Exporter { client, up: ZERO, gauges: Gauges::new() }
    }

    /// The handle to reach the store.
    pub fn get_client(&self) -> (r: &redis::Client)
        ensures
            *r == self.client(),
    {
        &self.client
    }

    /// What the liveness gauge holds: `1.0` if the last scrape reached the
    /// store and read its answer, `0.0` if not.
    pub fn liveness(&self) -> (r: u64)
        ensures
            r == self.up(),
    {
        self.up
    }

    /// What the gauges of the registry hold.
    pub fn values(&self) -> (r: Gauges)
        ensures
            r == self.gauges(),
    {
        self.gauges
    }

    /// Brings the gauges up to date from what came of asking the store, and
    /// says whether the store is up: `1.0` or `0.0`.
    ///
    /// Without a connection nothing changes and the store is down. A failed
    /// command is handed back as it is. An answer is read line by line; no
    /// line of it is an error, and the store is up.
    pub fn get_info<P: Fn(&[u8]) -> Option<u64>, A: Fn(u64, u64) -> u64>(
        &mut self,
        fetched: Fetched,
        parse: &P,
        plus: &A,
    ) -> (r: Result<u64>)
        requires
            can_read(parse),
            can_add(plus),
        ensures
            final(self).client() == old(self).client(),
            final(self).up() == old(self).up(),
            match fetched {
                Fetched::Unreachable => {
                    &&& r == Ok::<u64, MyError>(ZERO)
                    &&& final(self).gauges() == old(self).gauges()
                },
                Fetched::Failed(error) => {
                    &&& r == Err::<u64, MyError>(error)
                    &&& final(self).gauges() == old(self).gauges()
                },
                Fetched::Info(text) => {
                    &&& r == Ok::<u64, MyError>(ONE)
                    &&& read_into(old(self).gauges(), final(self).gauges(), text@, parse, plus)
                },
            },
    {
        match fetched {
            Fetched::Unreachable => Ok(ZERO),
            Fetched::Failed(error) => Err(error),
            Fetched::Info(text) => {
                let lines = parse_info(text.as_slice());
                let ghost start = begin(self.gauges);
                let mut pass = Pass::new(self.gauges);
                let mut at: usize = 0;
                while at < lines.len()
                    invariant
                        can_read(parse),
                        can_add(plus),
                        at <= lines.len(),
                        pass.master == master_seen(triples_of(lines@).subrange(0, at as int)),
                        forall|num: spec_fn(Seq<u8>) -> Option<u64>, sum: spec_fn(u64, u64) -> u64|
                            #![trigger reads_as(parse, num), adds_as(plus, sum)]
                            reads_as(parse, num) && adds_as(plus, sum) ==> pass == run(
                                triples_of(lines@).subrange(0, at as int),
                                start,
                                num,
                                sum,
                            ),
                    decreases lines.len() - at,
                {
                    let ghost before = pass;
                    pass.take(&lines[at], parse, plus);
                    proof {
                        let read = triples_of(lines@).subrange(0, at as int + 1);
                        assert(read.drop_last() =~= triples_of(lines@).subrange(0, at as int));
                        assert(read.last() == lines@[at as int]@);
                        assert forall|
                            num: spec_fn(Seq<u8>) -> Option<u64>,
                            sum: spec_fn(u64, u64) -> u64,
                        | reads_as(parse, num) && adds_as(plus, sum) implies pass == run(
                            read,
                            start,
                            num,
                            sum,
                        ) by {
                            assert(before == run(read.drop_last(), start, num, sum));
                            assert(pass == step(before, read.last(), num, sum));
                        }
                    }
                    at = at + 1;
                }
                assert(triples_of(lines@).subrange(0, at as int) =~= triples_of(lines@));
                self.gauges = pass.finish();
                Ok(ONE)
            },
        }
    }

    /// One scrape: brings the gauges up to date from what came of asking the
    /// store, sets the liveness gauge, and gives what is to be published.
    ///
    /// The liveness gauge is published always, and last. The gauges of the
    /// registry are published, in the registry's order, only if the store
    /// answered. A scrape as such never fails.
    pub fn collect<P: Fn(&[u8]) -> Option<u64>, A: Fn(u64, u64) -> u64>(
        &mut self,
        fetched: Fetched,
        parse: &P,
        plus: &A,
    ) -> (r: Result<Vec<Sample>>)
        requires
            can_read(parse),
            can_add(plus),
        ensures
            final(self).client() == old(self).client(),
            match fetched {
                Fetched::Info(text) => {
                    &&& final(self).up() == ONE
                    &&& read_into(old(self).gauges(), final(self).gauges(), text@, parse, plus)
                    &&& r matches Ok(samples) && samples_of(samples@) == registry_samples(
                        final(self).gauges(),
                    ).push(liveness_sample(ONE))
                },
                _ => {
                    &&& final(self).up() == ZERO
                    &&& final(self).gauges() == old(self).gauges()
                    &&& r matches Ok(samples) && samples_of(samples@) == seq![liveness_sample(ZERO)]
                },
            },
    {
        let mut metrics: Vec<Sample> = Vec::new();
        let up: u64 = match self.get_info(fetched, parse, plus) {
            Ok(up) => up,
            Err(_) => ZERO,
        };
        if up != ZERO {
            let all = Metric::all();
            let mut at: usize = 0;
            while at < all.len()
                invariant
                    all@ == registry(),
                    at <= all@.len(),
                    samples_of(metrics@) == registry_samples(self.gauges).subrange(0, at as int),
                decreases all@.len() - at,
            {
                let ghost before = samples_of(metrics@);
                let sample = Sample::of(&self.gauges, all[at]);
                metrics.push(sample);
                assert(samples_of(metrics@) =~= before.push(sample@));
                assert(samples_of(metrics@) =~= registry_samples(self.gauges).subrange(
                    0,
                    at as int + 1,
                ));
                at = at + 1;
            }
            assert(registry_samples(self.gauges).subrange(0, at as int) =~= registry_samples(
                self.gauges,
            ));
        }
        self.up = up;
        let ghost before = samples_of(metrics@);
        let sample = Sample::liveness(up);
        metrics.push(sample);
        assert(samples_of(metrics@) =~= before.push(sample@));
        Ok(metrics)
    }
}

/// The coercion rule. A line outside the keyspace section whose key has a
/// gauge stores `1.0` for `ok` and `true`, `2.0` for `err`, `fail` and
/// `false`, and else the number that its value reads as; where the value
/// reads as no number the gauge keeps what it held. Nothing but that one
/// gauge changes.
pub proof fn law_coercion(
    pass: Pass,
    line: Triple,
    metric: Metric,
    num: spec_fn(Seq<u8>) -> Option<u64>,
    sum: spec_fn(u64, u64) -> u64,
)
    requires
        line.key != role_key(),
        line.section != keyspace_section(),
        metric_of(line.key) == Some(metric),
    ensures
        step(pass, line, num, sum) == (Pass {
            gauges: if line.value == "ok".spec_bytes() || line.value == "true".spec_bytes() {
                pass.gauges.with(metric, ONE)
            } else if line.value == "err".spec_bytes() || line.value == "fail".spec_bytes()
                || line.value == "false".spec_bytes() {
                pass.gauges.with(metric, TWO)
            } else {
                match num(line.value) {
                    Some(number) => pass.gauges.with(metric, number),
                    None => pass.gauges,
                }
            },
            ..pass
        }),
{
    assert(pass.gauges.with(metric, pass.gauges.get(metric)) == pass.gauges);
}

/// The role that counts is the one seen last: after any lines, the pass
/// holds a master exactly if the last line with the key `role` has the
/// value `master`, and holds what it held before if there is no such line.
pub proof fn law_role_is_last_seen(
    lines: Seq<Triple>,
    pass: Pass,
    num: spec_fn(Seq<u8>) -> Option<u64>,
    sum: spec_fn(u64, u64) -> u64,
)
    ensures
        run(lines, pass, num, sum).master == match role_seen(lines) {
            Some(role) => role == master_role(),
            None => pass.master,
        },
    decreases lines.len(),
{
    if lines.len() > 0 {
        law_role_is_last_seen(lines.drop_last(), pass, num, sum);
    }
}

/// A keyspace line is added to the totals if and only if the role seen last
/// before it is `master`. Under a master it adds what `keyspace_metric`
/// gives for it, and nothing if that is nothing; under any other role, or
/// before any role was seen, it leaves both totals as they are. Either way
/// it stores nothing in the gauges.
pub proof fn law_aggregation_follows_role(
    earlier: Seq<Triple>,
    line: Triple,
    gauges: Gauges,
    num: spec_fn(Seq<u8>) -> Option<u64>,
    sum: spec_fn(u64, u64) -> u64,
)
    requires
        line.key != role_key(),
        line.section == keyspace_section(),
    ensures
        ({
            let before = run(earlier, begin(gauges), num, sum);
            let after = run(earlier.push(line), begin(gauges), num, sum);
            if role_seen(earlier) == Some(master_role()) {
                match keyspace_metric(line.key, line.value, num) {
                    Some((keys, ttl)) => after == (Pass {
                        total_keys: sum(before.total_keys, keys),
                        total_avg_ttl: sum(before.total_avg_ttl, ttl),
                        ..before
                    }),
                    None => after == before,
                }
            } else {
                after == before
            }
        }),
{
    law_role_is_last_seen(earlier, begin(gauges), num, sum);
    assert(earlier.push(line).drop_last() =~= earlier);
}

} // verus!

use redis_exporter::error::MyError;
use redis_exporter::exporter::{
    is_master, is_role, parse_and_set, set_keyspace_metric, Exporter, Fetched, Pass,
};
use redis_exporter::metric::{Gauges, Metric, Sample, ONE, TWO, ZERO};
use redis_exporter::parser::ParsedLine;

const MASTER: &str = "# Clients\r\nconnected_clients:5\r\n# Replication\r\nrole:master\r\n# Keyspace\r\ndb0:keys=10,expires=2,avg_ttl=0\r\ndb1:keys=3,expires=0,avg_ttl=100\r\n";

const SLAVE: &str = "# Clients\r\nconnected_clients:5\r\n# Replication\r\nrole:slave\r\n# Keyspace\r\ndb0:keys=10,expires=2,avg_ttl=0\r\ndb1:keys=3,expires=0,avg_ttl=100\r\n";

fn parse(text: &[u8]) -> Option<u64> {
    std::str::from_utf8(text).ok()?.parse::<f64>().ok().map(f64::to_bits)
}

fn plus(a: u64, b: u64) -> u64 {
    (f64::from_bits(a) + f64::from_bits(b)).to_bits()
}

fn bits(number: f64) -> u64 {
    number.to_bits()
}

fn exporter() -> Exporter {
    Exporter::new(redis::Client::open("redis://127.0.0.1:6379").unwrap())
}

fn info(text: &str) -> Fetched {
    Fetched::Info(text.as_bytes().to_vec())
}

fn scrape(exporter: &mut Exporter, text: &str) -> Vec<Sample> {
    exporter.collect(info(text), &parse, &plus).unwrap()
}

fn gauge(exporter: &Exporter, metric: Metric) -> f64 {
    f64::from_bits(exporter.values().value(metric))
}

fn line(section: &str, key: &str, value: &str) -> ParsedLine {
    ParsedLine {
        section: section.as_bytes().to_vec(),
        key: key.as_bytes().to_vec(),
        value: value.as_bytes().to_vec(),
    }
}

fn published(samples: &[Sample]) -> Vec<(&'static str, f64)> {
    samples.iter().map(|sample| (sample.name, f64::from_bits(sample.value))).collect()
}

#[test]
fn is_master_is_exact() {
    assert!(is_master(b"master"));
    assert!(!is_master(b"slave"));
    assert!(!is_master(b"Master"));
    assert!(!is_master(b"master "));
    assert!(!is_master(b""));
}

#[test]
fn is_role_is_exact() {
    assert!(is_role(b"role"));
    assert!(!is_role(b"Role"));
    assert!(!is_role(b"roles"));
    assert!(!is_role(b""));
}

#[test]
fn parse_and_set_stores_one_for_ok_and_true() {
    for word in ["ok", "true"] {
        let mut gauge = bits(7.0);
        parse_and_set(word.as_bytes(), &mut gauge, &parse);
        assert_eq!(f64::from_bits(gauge), 1.0);
    }
}

#[test]
fn parse_and_set_stores_two_for_err_fail_and_false() {
    for word in ["err", "fail", "false"] {
        let mut gauge = bits(7.0);
        parse_and_set(word.as_bytes(), &mut gauge, &parse);
        assert_eq!(f64::from_bits(gauge), 2.0);
    }
}

#[test]
fn parse_and_set_stores_the_number() {
    for (text, number) in [("5", 5.0), ("0.25", 0.25), ("-3", -3.0), ("1e3", 1000.0), ("12.50", 12.5)] {
        let mut gauge = bits(7.0);
        parse_and_set(text.as_bytes(), &mut gauge, &parse);
        assert_eq!(f64::from_bits(gauge), number);
    }
}

#[test]
fn parse_and_set_leaves_the_gauge_where_there_is_no_number() {
    for text in ["notanumber", "", "OK", "True", "12abc", " 5", "1,5"] {
        let mut gauge = bits(7.0);
        parse_and_set(text.as_bytes(), &mut gauge, &parse);
        assert_eq!(f64::from_bits(gauge), 7.0);
    }
}

#[test]
fn parse_and_set_does_not_ask_for_a_flag() {
    fn never(_: &[u8]) -> Option<u64> {
        panic!("a flag is no number to read")
    }
    let mut gauge = ZERO;
    parse_and_set(b"ok", &mut gauge, &never);
    assert_eq!(gauge, ONE);
    parse_and_set(b"fail", &mut gauge, &never);
    assert_eq!(gauge, TWO);
}

#[test]
fn keyspace_metric_of_a_partition() {
    let r = set_keyspace_metric(b"db0", b"keys=10,expires=2,avg_ttl=250", &parse);
    assert!(matches!(r, Ok((keys, ttl)) if f64::from_bits(keys) == 10.0 && f64::from_bits(ttl) == 250.0));
}

#[test]
fn keyspace_metric_without_the_fields_is_zero() {
    let r = set_keyspace_metric(b"db3", b"expires=2", &parse);
    assert!(matches!(r, Ok((ZERO, ZERO))));
    let r = set_keyspace_metric(b"db3", b"keys=4", &parse);
    assert!(matches!(r, Ok((keys, ZERO)) if f64::from_bits(keys) == 4.0));
    let r = set_keyspace_metric(b"db3", b"", &parse);
    assert!(matches!(r, Ok((ZERO, ZERO))));
}

#[test]
fn keyspace_metric_of_another_key_is_zero() {
    let r = set_keyspace_metric(b"other", b"keys=10,avg_ttl=250", &parse);
    assert!(matches!(r, Ok((ZERO, ZERO))));
    let r = set_keyspace_metric(b"DB0", b"keys=x", &parse);
    assert!(matches!(r, Ok((ZERO, ZERO))));
}

#[test]
fn keyspace_metric_refuses_a_field_that_is_no_number() {
    let r = set_keyspace_metric(b"db0", b"keys=many,avg_ttl=1", &parse);
    assert!(matches!(r, Err(MyError::ParseFloat(text)) if text == b"many"));
    let r = set_keyspace_metric(b"db0", b"keys=1,avg_ttl=", &parse);
    assert!(matches!(r, Err(MyError::ParseFloat(text)) if text == b""));
    let r = set_keyspace_metric(b"db0", b"keys=a,avg_ttl=b", &parse);
    assert!(matches!(r, Err(MyError::ParseFloat(text)) if text == b"a"));
}

#[test]
fn keyspace_metric_takes_the_last_of_a_repeated_field() {
    let r = set_keyspace_metric(b"db0", b"keys=bad,keys=6", &parse);
    assert!(matches!(r, Ok((keys, ZERO)) if f64::from_bits(keys) == 6.0));
}

#[test]
fn a_pass_starts_without_a_role_and_at_zero() {
    let pass = Pass::new(Gauges::new());
    assert!(!pass.master);
    assert_eq!(pass.total_keys, ZERO);
    assert_eq!(pass.total_avg_ttl, ZERO);
    assert_eq!(pass.gauges, Gauges::new());
}

#[test]
fn a_role_line_sets_the_role_and_nothing_else() {
    let mut pass = Pass::new(Gauges::new());
    pass.take(&line("Replication", "role", "master"), &parse, &plus);
    assert!(pass.master);
    assert_eq!(pass.gauges, Gauges::new());
    pass.take(&line("Keyspace", "role", "slave"), &parse, &plus);
    assert!(!pass.master);
    assert_eq!(pass.gauges, Gauges::new());
    assert_eq!(pass.total_keys, ZERO);
}

#[test]
fn keyspace_lines_count_under_a_master_only() {
    let mut pass = Pass::new(Gauges::new());
    pass.take(&line("Keyspace", "db0", "keys=10,avg_ttl=4"), &parse, &plus);
    assert_eq!(pass.total_keys, ZERO);
    assert_eq!(pass.total_avg_ttl, ZERO);
    pass.take(&line("Replication", "role", "master"), &parse, &plus);
    pass.take(&line("Keyspace", "db0", "keys=10,avg_ttl=4"), &parse, &plus);
    pass.take(&line("Keyspace", "db1", "keys=3,avg_ttl=0.5"), &parse, &plus);
    assert_eq!(f64::from_bits(pass.total_keys), 13.0);
    assert_eq!(f64::from_bits(pass.total_avg_ttl), 4.5);
    pass.take(&line("Replication", "role", "slave"), &parse, &plus);
    pass.take(&line("Keyspace", "db2", "keys=100,avg_ttl=100"), &parse, &plus);
    assert_eq!(f64::from_bits(pass.total_keys), 13.0);
    assert_eq!(f64::from_bits(pass.total_avg_ttl), 4.5);
    assert_eq!(pass.gauges, Gauges::new());
}

#[test]
fn a_keyspace_line_with_a_bad_field_counts_for_nothing() {
    let mut pass = Pass::new(Gauges::new());
    pass.take(&line("Replication", "role", "master"), &parse, &plus);
    pass.take(&line("Keyspace", "db0", "keys=10,avg_ttl=oops"), &parse, &plus);
    assert_eq!(pass.total_keys, ZERO);
    assert_eq!(pass.total_avg_ttl, ZERO);
    pass.take(&line("Keyspace", "db1", "keys=2,avg_ttl=3"), &parse, &plus);
    assert_eq!(f64::from_bits(pass.total_keys), 2.0);
    assert_eq!(f64::from_bits(pass.total_avg_ttl), 3.0);
}

#[test]
fn keyspace_lines_are_never_stored_under_their_key() {
    let mut pass = Pass::new(Gauges::new());
    pass.take(&line("Replication", "role", "master"), &parse, &plus);
    pass.take(&line("Keyspace", "connected_clients", "5"), &parse, &plus);
    pass.take(&line("Keyspace", "used_memory", "ok"), &parse, &plus);
    assert_eq!(pass.gauges, Gauges::new());
}

#[test]
fn the_section_name_is_exact() {
    let mut pass = Pass::new(Gauges::new());
    pass.take(&line("Replication", "role", "master"), &parse, &plus);
    pass.take(&line("keyspace", "db0", "keys=10,avg_ttl=4"), &parse, &plus);
    pass.take(&line("keyspace", "used_memory", "9"), &parse, &plus);
    assert_eq!(pass.total_keys, ZERO);
    assert_eq!(f64::from_bits(pass.gauges.used_memory), 9.0);
}

#[test]
fn a_generic_line_is_stored_under_its_key() {
    let mut pass = Pass::new(Gauges::new());
    pass.take(&line("Clients", "connected_clients", "5"), &parse, &plus);
    pass.take(&line("Clients", "maxclients", "10000"), &parse, &plus);
    pass.take(&line("Memory", "used_memory", "1048576"), &parse, &plus);
    pass.take(&line("CPU", "used_cpu_sys", "1.25"), &parse, &plus);
    pass.take(&line("CPU", "used_cpu_user", "ok"), &parse, &plus);
    pass.take(&line("Other", "unknown_key", "3"), &parse, &plus);
    assert_eq!(f64::from_bits(pass.gauges.connected_clients), 5.0);
    assert_eq!(f64::from_bits(pass.gauges.maxclients), 10000.0);
    assert_eq!(f64::from_bits(pass.gauges.used_memory), 1048576.0);
    assert_eq!(f64::from_bits(pass.gauges.used_cpu_sys), 1.25);
    assert_eq!(f64::from_bits(pass.gauges.used_cpu_user), 1.0);
    assert_eq!(pass.gauges.role, ZERO);
    assert_eq!(pass.gauges.dbsize, ZERO);
    assert_eq!(pass.gauges.ttl, ZERO);
    assert!(!pass.master);
}

#[test]
fn finish_writes_the_totals_and_the_role() {
    let mut pass = Pass::new(Gauges::new());
    pass.take(&line("Stats", "dbsize", "77"), &parse, &plus);
    pass.take(&line("Stats", "ttl", "88"), &parse, &plus);
    assert_eq!(f64::from_bits(pass.gauges.dbsize), 77.0);
    pass.take(&line("Replication", "role", "master"), &parse, &plus);
    pass.take(&line("Keyspace", "db0", "keys=1,avg_ttl=2"), &parse, &plus);
    let gauges = pass.finish();
    assert_eq!(f64::from_bits(gauges.dbsize), 1.0);
    assert_eq!(f64::from_bits(gauges.ttl), 2.0);
    assert_eq!(f64::from_bits(gauges.role), 1.0);
}

#[test]
fn a_new_exporter_holds_zero() {
    let e = exporter();
    assert_eq!(e.liveness(), ZERO);
    assert_eq!(e.values(), Gauges::new());
}

#[test]
fn the_client_is_kept() {
    let client = redis::Client::open("redis://example.org:7000/3").unwrap();
    let e = Exporter::new(client.clone());
    assert_eq!(
        e.get_client().get_connection_info().addr().to_string(),
        client.get_connection_info().addr().to_string()
    );
}

#[test]
fn scrape_of_a_master() {
    let mut e = exporter();
    let samples = scrape(&mut e, MASTER);
    assert_eq!(gauge(&e, Metric::ConnectedClients), 5.0);
    assert_eq!(gauge(&e, Metric::RoleMaster), 1.0);
    assert_eq!(gauge(&e, Metric::DbSize), 13.0);
    assert_eq!(gauge(&e, Metric::AvgTtl), 100.0);
    assert_eq!(f64::from_bits(e.liveness()), 1.0);
    assert_eq!(
        published(&samples),
        vec![
            ("connected_clients", 5.0),
            ("max_clients", 0.0),
            ("used_memory", 0.0),
            ("used_cpu_sys", 0.0),
            ("used_cpu_user", 0.0),
            ("role_master", 1.0),
            ("dbsize", 13.0),
            ("avg_ttl", 100.0),
            ("node_status", 1.0),
        ]
    );
}

#[test]
fn scrape_of_a_replica_leaves_the_totals() {
    let mut e = exporter();
    let before = e.values();
    let samples = scrape(&mut e, SLAVE);
    assert_eq!(e.values().dbsize, before.dbsize);
    assert_eq!(e.values().ttl, before.ttl);
    assert_eq!(gauge(&e, Metric::ConnectedClients), 5.0);
    assert_eq!(gauge(&e, Metric::RoleMaster), 0.0);
    assert_eq!(f64::from_bits(e.liveness()), 1.0);
    assert_eq!(samples.len(), 9);
}

#[test]
fn each_scrape_counts_from_zero() {
    let mut e = exporter();
    scrape(&mut e, MASTER);
    scrape(&mut e, MASTER);
    assert_eq!(gauge(&e, Metric::DbSize), 13.0);
    assert_eq!(gauge(&e, Metric::AvgTtl), 100.0);
    scrape(&mut e, SLAVE);
    assert_eq!(gauge(&e, Metric::DbSize), 0.0);
    assert_eq!(gauge(&e, Metric::AvgTtl), 0.0);
    assert_eq!(gauge(&e, Metric::RoleMaster), 0.0);
}

#[test]
fn a_value_that_is_no_number_leaves_the_gauge() {
    let mut e = exporter();
    scrape(&mut e, "# Clients\r\nconnected_clients:5\r\n");
    let r = e.collect(info("# Clients\r\nconnected_clients:notanumber\r\nmaxclients:7\r\n"), &parse, &plus);
    assert!(r.is_ok());
    assert_eq!(gauge(&e, Metric::ConnectedClients), 5.0);
    assert_eq!(gauge(&e, Metric::MaxClients), 7.0);
    assert_eq!(f64::from_bits(e.liveness()), 1.0);
}

#[test]
fn a_gauge_without_a_line_keeps_what_it_held() {
    let mut e = exporter();
    scrape(&mut e, "used_memory:100\r\nused_cpu_sys:0.5\r\n");
    let samples = scrape(&mut e, "used_cpu_sys:0.75\r\n");
    assert_eq!(gauge(&e, Metric::UsedMemory), 100.0);
    assert_eq!(gauge(&e, Metric::UsedCpuSys), 0.75);
    assert_eq!(published(&samples)[2], ("used_memory", 100.0));
}

#[test]
fn the_role_seen_last_counts() {
    let mut e = exporter();
    scrape(&mut e, "role:master\r\n# Keyspace\r\ndb0:keys=1,avg_ttl=1\r\nrole:slave\r\ndb1:keys=2,avg_ttl=2\r\nrole:master\r\ndb2:keys=4,avg_ttl=4\r\n");
    assert_eq!(gauge(&e, Metric::DbSize), 5.0);
    assert_eq!(gauge(&e, Metric::AvgTtl), 5.0);
    assert_eq!(gauge(&e, Metric::RoleMaster), 1.0);
    scrape(&mut e, "role:master\r\n# Keyspace\r\ndb0:keys=1,avg_ttl=1\r\nrole:slave\r\n");
    assert_eq!(gauge(&e, Metric::DbSize), 1.0);
    assert_eq!(gauge(&e, Metric::RoleMaster), 0.0);
}

#[test]
fn keyspace_lines_before_the_role_are_ignored() {
    let mut e = exporter();
    scrape(&mut e, "# Keyspace\r\ndb0:keys=10,avg_ttl=1\r\nrole:master\r\n");
    assert_eq!(gauge(&e, Metric::DbSize), 0.0);
    assert_eq!(gauge(&e, Metric::RoleMaster), 1.0);
}

#[test]
fn an_empty_answer_is_a_scrape() {
    let mut e = exporter();
    scrape(&mut e, MASTER);
    let samples = scrape(&mut e, "");
    assert_eq!(f64::from_bits(e.liveness()), 1.0);
    assert_eq!(gauge(&e, Metric::ConnectedClients), 5.0);
    assert_eq!(gauge(&e, Metric::DbSize), 0.0);
    assert_eq!(gauge(&e, Metric::RoleMaster), 0.0);
    assert_eq!(samples.len(), 9);
}

#[test]
fn without_a_connection_only_liveness_is_published() {
    let mut e = exporter();
    let samples = e.collect(Fetched::Unreachable, &parse, &plus).unwrap();
    assert_eq!(published(&samples), vec![("node_status", 0.0)]);
    assert_eq!(samples[0].help, "The status of current node");
    assert_eq!(e.liveness(), ZERO);
}

#[test]
fn without_a_connection_the_gauges_are_kept() {
    let mut e = exporter();
    scrape(&mut e, MASTER);
    let held = e.values();
    let samples = e.collect(Fetched::Unreachable, &parse, &plus).unwrap();
    assert_eq!(published(&samples), vec![("node_status", 0.0)]);
    assert_eq!(e.values(), held);
    assert_eq!(f64::from_bits(e.liveness()), 0.0);
    let samples = scrape(&mut e, "");
    assert_eq!(published(&samples)[0], ("connected_clients", 5.0));
    assert_eq!(published(&samples)[8], ("node_status", 1.0));
}

#[test]
fn a_failed_command_is_a_failed_scrape() {
    let mut e = exporter();
    scrape(&mut e, MASTER);
    let held = e.values();
    let failure = Fetched::Failed(MyError::Redis("broken pipe".to_string()));
    let samples = e.collect(failure, &parse, &plus).unwrap();
    assert_eq!(published(&samples), vec![("node_status", 0.0)]);
    assert_eq!(e.values(), held);
    assert_eq!(e.liveness(), ZERO);
}

#[test]
fn get_info_says_whether_the_store_is_up() {
    let mut e = exporter();
    assert!(matches!(e.get_info(Fetched::Unreachable, &parse, &plus), Ok(ZERO)));
    assert!(matches!(e.get_info(info(MASTER), &parse, &plus), Ok(ONE)));
    assert_eq!(gauge(&e, Metric::DbSize), 13.0);
    assert_eq!(e.liveness(), ZERO);
}

#[test]
fn get_info_hands_a_failure_back() {
    let mut e = exporter();
    let r = e.get_info(Fetched::Failed(MyError::Redis("timed out".to_string())), &parse, &plus);
    assert!(matches!(r, Err(MyError::Redis(report)) if report == "timed out"));
    assert_eq!(e.values(), Gauges::new());
}

#[test]
fn liveness_does_not_depend_on_skipped_keys() {
    let mut e = exporter();
    let samples = scrape(
        &mut e,
        "connected_clients:x\r\nmaxclients:\r\nused_memory:1.2.3\r\nrole:master\r\n# Keyspace\r\ndb0:keys=?\r\nnonsense\r\n",
    );
    assert_eq!(f64::from_bits(e.liveness()), 1.0);
    assert_eq!(published(&samples)[8], ("node_status", 1.0));
    assert_eq!(gauge(&e, Metric::ConnectedClients), 0.0);
    assert_eq!(gauge(&e, Metric::DbSize), 0.0);
    assert_eq!(gauge(&e, Metric::RoleMaster), 1.0);
}

#[test]
fn the_numbers_are_those_of_the_functions_handed_in() {
    fn length(text: &[u8]) -> Option<u64> {
        if text.is_empty() {
            None
        } else {
            Some(text.len() as u64)
        }
    }
    fn larger(a: u64, b: u64) -> u64 {
        a.max(b)
    }
    let mut e = exporter();
    e.collect(
        info("connected_clients:abc\r\nmaxclients:\r\nrole:master\r\n# Keyspace\r\ndb0:keys=12345,avg_ttl=1\r\ndb1:keys=12,avg_ttl=123\r\n"),
        &length,
        &larger,
    )
    .unwrap();
    assert_eq!(e.values().connected_clients, 3);
    assert_eq!(e.values().maxclients, 0);
    assert_eq!(e.values().dbsize, 5);
    assert_eq!(e.values().ttl, 3);
    assert_eq!(e.values().role, ONE);
}

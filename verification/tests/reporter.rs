use procmon::args::Args;
use procmon::args::MemoryUnits;
use procmon::args::TimeUnits;
use procmon::reporter::Columns;
use procmon::reporter::Reporter;
use procmon::reporter::Row;

fn settings(mem_units: MemoryUnits, time_units: TimeUnits) -> Args {
    Args {
        command: vec!["sleep".to_string(), "1".to_string()],
        report_path: "procmon".to_string(),
        poll_interval: 100,
        mem_units,
        time_units,
        no_override_report: false,
        no_measure_cpu: false,
        no_measure_mem: false,
        no_measure_disk: false,
    }
}

fn all_columns() -> Columns {
    Columns { memory: true, cpu: true, disk: true }
}

fn reporter(columns: Columns, mem_units: MemoryUnits, time_units: TimeUnits) -> Reporter {
    Reporter::new("procmon", false, &true, columns, settings(mem_units, time_units)).unwrap()
}

#[test]
fn existing_folder_is_refused_without_override() {
    let r = Reporter::new("/tmp/run", true, &false, all_columns(), settings(MemoryUnits::Mb, TimeUnits::Ms));
    match r {
        Err(message) => assert_eq!(message, "Report folder /tmp/run already exists"),
        Ok(_) => panic!("an existing folder was accepted"),
    }
    assert!(!Reporter::replaces_existing(true, false));
}

#[test]
fn existing_folder_is_replaced_with_override() {
    let r = Reporter::new("/tmp/run", true, &true, all_columns(), settings(MemoryUnits::Mb, TimeUnits::Ms));
    let reporter = r.unwrap();
    assert!(reporter.rows().is_empty());
    assert!(Reporter::replaces_existing(true, true));
}

#[test]
fn missing_folder_is_accepted_either_way() {
    for override_report in [false, true] {
        let r = Reporter::new("run", false, &override_report, all_columns(), settings(MemoryUnits::Mb, TimeUnits::Ms));
        assert!(r.is_ok());
        assert!(!Reporter::replaces_existing(false, override_report));
    }
}

#[test]
fn header_with_every_column() {
    let r = reporter(all_columns(), MemoryUnits::Mb, TimeUnits::Ms);
    assert_eq!(r.header(), "time_ms,cpu,memory_mb,disk_read,disk_write");
}

#[test]
fn header_names_the_units() {
    let r = reporter(all_columns(), MemoryUnits::Kb, TimeUnits::S);
    assert_eq!(r.header(), "time_s,cpu,memory_kb,disk_read,disk_write");
    let r = reporter(all_columns(), MemoryUnits::B, TimeUnits::Ms);
    assert_eq!(r.header(), "time_ms,cpu,memory_b,disk_read,disk_write");
}

#[test]
fn header_for_each_choice_of_columns() {
    let expected = [
        (false, false, false, "time_ms"),
        (true, false, false, "time_ms,cpu"),
        (false, true, false, "time_ms,memory_mb"),
        (false, false, true, "time_ms,disk_read,disk_write"),
        (true, true, false, "time_ms,cpu,memory_mb"),
        (true, false, true, "time_ms,cpu,disk_read,disk_write"),
        (false, true, true, "time_ms,memory_mb,disk_read,disk_write"),
        (true, true, true, "time_ms,cpu,memory_mb,disk_read,disk_write"),
    ];
    for (cpu, memory, disk, header) in expected {
        let r = reporter(Columns { memory, cpu, disk }, MemoryUnits::Mb, TimeUnits::Ms);
        assert_eq!(r.header(), header);
    }
}

#[test]
fn header_is_the_same_for_the_same_columns_and_units() {
    let mut other = settings(MemoryUnits::Kb, TimeUnits::S);
    other.command = vec!["true".to_string()];
    other.poll_interval = 7;
    other.report_path = "elsewhere".to_string();
    let a = reporter(all_columns(), MemoryUnits::Kb, TimeUnits::S);
    let mut b = Reporter::new("elsewhere", true, &true, all_columns(), other).unwrap();
    b.write(Row::bracket(0));
    assert_eq!(a.header(), b.header());
}

#[test]
fn row_in_milliseconds_and_mebibytes() {
    let mut r = reporter(all_columns(), MemoryUnits::Mb, TimeUnits::Ms);
    let line = r.write(Row {
        time: 1234,
        memory: Some(5 * 1048576 + 17),
        cpu: Some(42),
        disk_read: Some(4096),
        disk_write: Some(123),
    });
    assert_eq!(line, "1234,42,5,4096,123");
}

#[test]
fn row_in_seconds_and_kibibytes() {
    let mut r = reporter(all_columns(), MemoryUnits::Kb, TimeUnits::S);
    let line = r.write(Row {
        time: 1234,
        memory: Some(2047),
        cpu: Some(150),
        disk_read: Some(0),
        disk_write: Some(1),
    });
    assert_eq!(line, "1.234,150,1,0,1");
    assert_eq!(r.write(Row::bracket(5)), "0.005,0,0,0,0");
    assert_eq!(r.write(Row::bracket(60000)), "60.000,0,0,0,0");
}

#[test]
fn row_in_bytes() {
    let mut r = reporter(all_columns(), MemoryUnits::B, TimeUnits::Ms);
    let line = r.write(Row {
        time: 0,
        memory: Some(u64::MAX),
        cpu: Some(0),
        disk_read: Some(u64::MAX),
        disk_write: Some(7),
    });
    assert_eq!(line, "0,0,18446744073709551615,18446744073709551615,7");
}

#[test]
fn seconds_agree_with_three_decimal_places_of_the_quotient() {
    let r = reporter(Columns { memory: false, cpu: false, disk: false }, MemoryUnits::Mb, TimeUnits::S);
    for millis in [0u128, 1, 9, 10, 99, 100, 999, 1000, 1001, 2005, 59999, 86400000, 4503599627370495] {
        let row = Row { time: millis, memory: None, cpu: None, disk_read: None, disk_write: None };
        assert_eq!(r.render(&row), format!("{:.3}", millis as f64 / 1000_f64));
    }
}

#[test]
fn a_column_that_is_off_is_left_out() {
    let row = Row {
        time: 10,
        memory: Some(3 * 1048576),
        cpu: Some(9),
        disk_read: Some(11),
        disk_write: Some(12),
    };
    let r = reporter(Columns { memory: true, cpu: false, disk: true }, MemoryUnits::Mb, TimeUnits::Ms);
    assert_eq!(r.render(&row), "10,3,11,12");
    let r = reporter(Columns { memory: false, cpu: true, disk: false }, MemoryUnits::Mb, TimeUnits::Ms);
    assert_eq!(r.render(&row), "10,9");
    let r = reporter(Columns { memory: false, cpu: false, disk: false }, MemoryUnits::Mb, TimeUnits::Ms);
    assert_eq!(r.render(&row), "10");
}

#[test]
fn a_value_that_is_absent_is_left_out() {
    let r = reporter(all_columns(), MemoryUnits::Mb, TimeUnits::Ms);
    let row = Row { time: 10, memory: None, cpu: Some(9), disk_read: None, disk_write: Some(12) };
    assert_eq!(r.render(&row), "10,9,12");
    assert_eq!(r.render(&Row::default()), "0");
}

#[test]
fn disk_disabled_leaves_no_disk_columns() {
    let mut args = settings(MemoryUnits::Mb, TimeUnits::Ms);
    args.no_measure_disk = true;
    let columns = Columns::from_args(&args);
    assert_eq!(columns, Columns { memory: true, cpu: true, disk: false });
    let sample = Row::sample(&args, 100, 12, 2 * 1048576, 555, 666);
    assert_eq!(sample.disk_read, None);
    assert_eq!(sample.disk_write, None);
    let mut r = Reporter::new("run", false, &true, columns, args).unwrap();
    let header = r.header();
    assert_eq!(header, "time_ms,cpu,memory_mb");
    assert!(!header.contains("disk_read"));
    assert!(!header.contains("disk_write"));
    assert_eq!(r.write(Row::bracket(0)), "0,0,0");
    assert_eq!(r.write(sample), "100,12,2");
    assert_eq!(r.write(Row::bracket(210)), "210,0,0");
}

#[test]
fn columns_follow_the_settings() {
    let mut args = settings(MemoryUnits::Mb, TimeUnits::Ms);
    assert_eq!(Columns::from_args(&args), all_columns());
    args.no_measure_cpu = true;
    assert_eq!(Columns::from_args(&args), Columns { memory: true, cpu: false, disk: true });
    args.no_measure_mem = true;
    assert_eq!(Columns::from_args(&args), Columns { memory: false, cpu: false, disk: true });
    args.no_measure_disk = true;
    assert_eq!(Columns::from_args(&args), Columns { memory: false, cpu: false, disk: false });
}

#[test]
fn sample_omits_what_is_switched_off() {
    let mut args = settings(MemoryUnits::Mb, TimeUnits::Ms);
    assert_eq!(
        Row::sample(&args, 5, 1, 2, 3, 4),
        Row { time: 5, memory: Some(2), cpu: Some(1), disk_read: Some(3), disk_write: Some(4) }
    );
    args.no_measure_cpu = true;
    assert_eq!(
        Row::sample(&args, 5, 1, 2, 3, 4),
        Row { time: 5, memory: Some(2), cpu: None, disk_read: Some(3), disk_write: Some(4) }
    );
    args.no_measure_mem = true;
    args.no_measure_disk = true;
    assert_eq!(
        Row::sample(&args, 0, 1, 2, 3, 4),
        Row { time: 0, memory: None, cpu: None, disk_read: None, disk_write: None }
    );
}

#[test]
fn bracket_rows_are_all_zero() {
    assert_eq!(
        Row::bracket(0),
        Row { time: 0, memory: Some(0), cpu: Some(0), disk_read: Some(0), disk_write: Some(0) }
    );
    assert_eq!(
        Row::bracket(12345),
        Row { time: 12345, memory: Some(0), cpu: Some(0), disk_read: Some(0), disk_write: Some(0) }
    );
}

#[test]
fn default_row_has_no_values() {
    assert_eq!(
        Row::default(),
        Row { time: 0, memory: None, cpu: None, disk_read: None, disk_write: None }
    );
}

#[test]
fn history_grows_by_each_row_written() {
    let mut r = reporter(all_columns(), MemoryUnits::Mb, TimeUnits::Ms);
    assert!(r.rows().is_empty());
    let first = Row::bracket(0);
    let second = Row { time: 3, memory: Some(1), cpu: Some(2), disk_read: Some(3), disk_write: Some(4) };
    r.write(first);
    assert_eq!(r.rows(), &vec![first]);
    r.write(second);
    assert_eq!(r.rows(), &vec![first, second]);
    r.write(second);
    assert_eq!(r.rows(), &vec![first, second, second]);
}

#[test]
fn render_does_not_record() {
    let r = reporter(all_columns(), MemoryUnits::Mb, TimeUnits::Ms);
    r.render(&Row::bracket(1));
    assert!(r.rows().is_empty());
}

#[test]
fn run_of_two_intervals() {
    let args = settings(MemoryUnits::Kb, TimeUnits::Ms);
    let columns = Columns::from_args(&args);
    let mut r = Reporter::new("run", false, &true, columns, args.clone()).unwrap();
    let mut report = vec![r.header()];
    report.push(r.write(Row::bracket(0)));
    report.push(r.write(Row::sample(&args, 1, 0, 4096, 0, 0)));
    report.push(r.write(Row::sample(&args, 101, 3, 8192, 512, 64)));
    report.push(r.write(Row::bracket(203)));
    assert_eq!(
        report,
        vec![
            "time_ms,cpu,memory_kb,disk_read,disk_write",
            "0,0,0,0,0",
            "1,0,4,0,0",
            "101,3,8,512,64",
            "203,0,0,0,0",
        ]
    );
    let rows = r.rows();
    assert_eq!(rows.len(), 4);
    assert_eq!(rows[0], Row::bracket(0));
    assert_eq!(rows[3], Row::bracket(203));
    for sample in &rows[1..3] {
        assert!(sample.cpu.is_some() && sample.memory.is_some());
        assert!(sample.disk_read.is_some() && sample.disk_write.is_some());
    }
    for pair in rows.windows(2) {
        assert!(pair[0].time <= pair[1].time);
    }
}

#[test]
fn every_line_has_the_fields_of_the_header() {
    for (cpu, memory, disk) in [(true, true, true), (false, true, false), (true, false, true), (false, false, false)] {
        let mut args = settings(MemoryUnits::Mb, TimeUnits::S);
        args.no_measure_cpu = !cpu;
        args.no_measure_mem = !memory;
        args.no_measure_disk = !disk;
        let mut r = Reporter::new("run", false, &true, Columns::from_args(&args), args.clone()).unwrap();
        let width = r.header().split(',').count();
        assert_eq!(r.write(Row::bracket(0)).split(',').count(), width);
        assert_eq!(r.write(Row::sample(&args, 7, 1, 2, 3, 4)).split(',').count(), width);
    }
}

#[test]
fn rows_are_kept_in_the_order_written() {
    let mut r = reporter(all_columns(), MemoryUnits::Mb, TimeUnits::Ms);
    r.write(Row::bracket(0));
    r.write(Row::bracket(300));
    r.write(Row { time: 250, memory: Some(1), cpu: Some(1), disk_read: Some(1), disk_write: Some(1) });
    let times: Vec<u128> = r.rows().iter().map(|row| row.time).collect();
    assert_eq!(times, vec![0, 300, 250]);
}

#[test]
fn times_ascend_when_each_row_is_no_earlier_than_the_last() {
    let mut r = reporter(all_columns(), MemoryUnits::Mb, TimeUnits::Ms);
    for time in [0u128, 0, 5, 5, 100, 1000] {
        r.write(Row::bracket(time));
    }
    for pair in r.rows().windows(2) {
        assert!(pair[0].time <= pair[1].time);
    }
}

#[test]
fn start_bracket_is_at_time_zero() {
    assert_eq!(
        Row::start_bracket(),
        Row { time: 0, memory: Some(0), cpu: Some(0), disk_read: Some(0), disk_write: Some(0) }
    );
    assert_eq!(Row::start_bracket(), Row::bracket(0));
}

#[test]
fn run_has_its_brackets_first_and_last() {
    let args = settings(MemoryUnits::Mb, TimeUnits::Ms);
    let mut r = Reporter::new("run", false, &true, Columns::from_args(&args), args.clone()).unwrap();
    let samples = vec![
        Row::sample(&args, 2, 1, 1048576, 0, 0),
        Row::sample(&args, 102, 0, 0, 0, 0),
        Row::sample(&args, 203, 5, 2097152, 9, 9),
    ];
    assert_eq!(r.write(Row::start_bracket()), "0,0,0,0,0");
    for sample in &samples {
        r.write(*sample);
    }
    assert_eq!(r.write(Row::bracket(210)), "210,0,0,0,0");
    let rows = r.rows();
    assert_eq!(rows.len(), samples.len() + 2);
    assert_eq!(rows[0], Row::start_bracket());
    assert_eq!(rows[rows.len() - 1], Row::bracket(210));
    assert_eq!(&rows[1..rows.len() - 1], &samples[..]);
    for pair in rows.windows(2) {
        assert!(pair[0].time <= pair[1].time);
    }
}

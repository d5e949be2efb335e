use xerve::metrics::{
    either_holds, history_excess, is_service_process, pids_at, process_names_for_service, program_matches,
    select_processes, total_memory, ProcessSample, HISTORY_LIMIT,
};

fn sample(pid: u32, name: &str, memory: u64) -> ProcessSample {
    ProcessSample { pid, name: name.to_string(), memory }
}

#[test]
fn only_the_web_server_and_the_database_have_programs() {
    assert_eq!(process_names_for_service("Nginx"), vec!["nginx", "nginx.exe"]);
    assert_eq!(
        process_names_for_service("MariaDB"),
        vec!["mariadbd", "mariadbd.exe", "mysqld", "mysqld.exe"]
    );
    assert!(process_names_for_service("Redis").is_empty());
    assert!(process_names_for_service("nginx").is_empty());
}

#[test]
fn names_go_together_whatever_their_case() {
    assert!(program_matches("NGINX.EXE", "nginx"));
    assert!(program_matches("nginx", "Nginx.exe"));
    assert!(program_matches("MariaDBd", "mariadbd.exe"));
    assert!(!program_matches("apache", "nginx"));
}

#[test]
fn one_name_has_to_hold_the_other() {
    assert!(program_matches("nginx: worker process", "nginx"));
    assert!(program_matches("nginx", "nginx.exe"));
    assert!(program_matches("gin", "nginx"));
    assert!(!program_matches("nginy", "nginx"));
    assert!(!program_matches("ngin-x", "nginx"));
    assert!(program_matches("", "nginx"));
    assert!(program_matches("xnginx", "nginx"));
    assert!(program_matches("nginxx", "nginx"));
}

#[test]
fn processes_are_chosen_by_the_service() {
    assert!(is_service_process("nginx.exe", "Nginx"));
    assert!(is_service_process("MYSQLD", "MariaDB"));
    assert!(is_service_process("mariadbd-safe", "MariaDB"));
    assert!(!is_service_process("nginx.exe", "MariaDB"));
    assert!(!is_service_process("nginx.exe", "Redis"));
    assert!(!is_service_process("", "Redis"));
}

#[test]
fn chosen_processes_keep_their_order() {
    let samples = vec![
        sample(10, "explorer.exe", 1_000),
        sample(11, "nginx.exe", 2_000),
        sample(12, "mariadbd.exe", 3_000),
        sample(13, "NGINX.EXE", 4_000),
    ];
    let places = select_processes(&samples, "Nginx");
    assert_eq!(places, vec![1, 3]);
    assert_eq!(pids_at(&samples, &places), vec![11, 13]);
    assert_eq!(total_memory(&samples, &places), 6_000);

    let places = select_processes(&samples, "MariaDB");
    assert_eq!(places, vec![2]);
    assert_eq!(total_memory(&samples, &places), 3_000);

    let places = select_processes(&samples, "Redis");
    assert!(places.is_empty());
    assert_eq!(total_memory(&samples, &places), 0);
    assert!(pids_at(&samples, &places).is_empty());
}

#[test]
fn no_samples_give_nothing() {
    let samples: Vec<ProcessSample> = Vec::new();
    assert!(select_processes(&samples, "Nginx").is_empty());
}

#[test]
fn a_total_beyond_the_limit_stays_at_the_limit() {
    let samples = vec![sample(1, "nginx", u64::MAX - 5), sample(2, "nginx", 10), sample(3, "nginx", 1)];
    let places = select_processes(&samples, "Nginx");
    assert_eq!(total_memory(&samples, &places), u64::MAX);
    assert_eq!(total_memory(&samples, &vec![1, 2]), 11);
    assert_eq!(total_memory(&samples, &vec![0, 2]), u64::MAX - 4);
    assert_eq!(total_memory(&samples, &vec![2, 2, 2]), 3);
}

#[test]
fn places_without_a_sample_are_passed_over() {
    let samples = vec![sample(1, "nginx", 100), sample(2, "nginx", 20)];
    assert_eq!(total_memory(&samples, &vec![0, 2, 1, 99]), 120);
    assert_eq!(pids_at(&samples, &vec![1, 7, 0, 1]), vec![2, 1, 2]);
    assert!(pids_at(&samples, &vec![2]).is_empty());
}

#[test]
fn a_history_keeps_sixty_measurements() {
    assert_eq!(HISTORY_LIMIT, 60);
    assert_eq!(history_excess(0), 0);
    assert_eq!(history_excess(60), 0);
    assert_eq!(history_excess(61), 1);
    assert_eq!(history_excess(200), 140);
}

#[test]
fn one_text_holds_the_other_character_for_character() {
    assert!(either_holds("nginx.exe", "nginx"));
    assert!(either_holds("nginx", "nginx.exe"));
    assert!(either_holds("inx", "nginx"));
    assert!(either_holds("", "nginx"));
    assert!(either_holds("", ""));
    assert!(!either_holds("NGINX", "nginx"));
    assert!(!either_holds("nginx", "mysqld"));
    assert!(!either_holds("ngi-nx", "nginx"));
    assert!(!either_holds("straße", "strasse"));
}

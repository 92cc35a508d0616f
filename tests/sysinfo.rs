use wolves_cli_helper::sysinfo::{SystemDisks, SystemInfo};

fn sample(disks: Vec<SystemDisks>) -> SystemInfo {
    SystemInfo {
        system_name: String::from("Linux"),
        kernel_version: String::from("6.1.0"),
        os_version: String::from("12"),
        hostname: String::from("box"),
        cpu_cores: 8,
        cpu_virtual_cores: 16,
        total_memory: 16_000_000_000,
        used_memory: 4_096,
        total_swap: 0,
        used_swap: 0,
        disks,
    }
}

fn disk(kind: Option<&str>, fs: Option<&str>, free: Option<&str>) -> SystemDisks {
    SystemDisks {
        disk_type: kind.map(String::from),
        file_system: fs.map(String::from),
        free_space: free.map(String::from),
    }
}

#[test]
fn test_to_hashmap() {
    let sys_info = sample(vec![disk(Some("SSD"), Some("ext4"), Some("1024"))]);
    let hashmap = SystemInfo::new_to_hashmap(sys_info);

    assert!(hashmap.contains_key("System Name"));
    assert!(hashmap.contains_key("System kernel version"));
    assert!(hashmap.contains_key("System OS version"));
    assert!(hashmap.contains_key("Hostname"));
    assert!(hashmap.contains_key("CPU Cores"));
    assert!(hashmap.contains_key("CPU Virtual Cores"));
    assert!(hashmap.contains_key("Total Memory"));
    assert!(hashmap.contains_key("Used Memory"));
    assert!(hashmap.contains_key("Total Swap"));
    assert!(hashmap.contains_key("Used Swap"));
}

#[test]
fn table_writes_numbers_in_decimal() {
    let m = SystemInfo::new_to_hashmap(sample(vec![]));
    assert_eq!(m.len(), 10);
    assert_eq!(m.get("System Name").unwrap(), "Linux");
    assert_eq!(m.get("System kernel version").unwrap(), "6.1.0");
    assert_eq!(m.get("System OS version").unwrap(), "12");
    assert_eq!(m.get("Hostname").unwrap(), "box");
    assert_eq!(m.get("CPU Cores").unwrap(), "8");
    assert_eq!(m.get("CPU Virtual Cores").unwrap(), "16");
    assert_eq!(m.get("Total Memory").unwrap(), "16000000000");
    assert_eq!(m.get("Used Memory").unwrap(), "4096");
    assert_eq!(m.get("Total Swap").unwrap(), "0");
    assert_eq!(m.get("Used Swap").unwrap(), "0");
    assert!(!m.contains_key("Disk Type"));
}

#[test]
fn table_takes_last_disk_that_has_a_field() {
    let m = SystemInfo::new_to_hashmap(sample(vec![
        disk(Some("HDD"), Some("ext4"), Some("10")),
        disk(Some("SSD"), None, Some("20")),
        disk(None, None, None),
    ]));
    assert_eq!(m.len(), 13);
    assert_eq!(m.get("Disk Type").unwrap(), "SSD");
    assert_eq!(m.get("File System").unwrap(), "ext4");
    assert_eq!(m.get("Free Space").unwrap(), "20");
}

#[test]
fn table_of_largest_counts() {
    let mut s = sample(vec![]);
    s.total_memory = u64::MAX;
    s.cpu_cores = usize::MAX;
    let m = SystemInfo::new_to_hashmap(s);
    assert_eq!(m.get("Total Memory").unwrap(), "18446744073709551615");
    assert_eq!(m.get("CPU Cores").unwrap(), &usize::MAX.to_string());
}

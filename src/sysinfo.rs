//! A snapshot of the host system and its rendering as a table of labelled
//! values.
use vstd::prelude::*;
use vstd::hash_map::StringHashMap;

verus! {

/// The decimal digit for `d`, which is below ten.
pub open spec fn digit_char(d: nat) -> char {
    seq!['0', '1', '2', '3', '4', '5', '6', '7', '8', '9'][d as int]
}

/// The decimal digits of `n`, most significant first, without leading zeros.
pub open spec fn decimal(n: nat) -> Seq<char>
    decreases n,
{
    if n < 10 {
        seq![digit_char(n)]
    } else {
        decimal(n / 10).push(digit_char(n % 10))
    }
}

/// Relies on the `ToString` of `u64` (through its `Display`): the decimal
/// digits of `n`, without sign or leading zeros.
#[verifier::external_body]
fn decimal_string(n: u64) -> (r: String)
    ensures
        r@ == decimal(n as nat),
{
    n.to_string()
}

/// One disk of the host: its kind, its file-system label and its free space.
#[derive(Debug)]
pub struct SystemDisks {
    pub disk_type: Option<String>,
    pub file_system: Option<String>,
    pub free_space: Option<String>,
}

/// A snapshot of the host: names and versions, core counts, memory and swap
/// (in bytes) and its disks.
#[derive(Debug)]
pub struct SystemInfo {
    pub system_name: String,
    pub kernel_version: String,
    pub os_version: String,
    pub hostname: String,
    pub cpu_cores: usize,
    pub cpu_virtual_cores: usize,
    pub total_memory: u64,
    pub used_memory: u64,
    pub total_swap: u64,
    pub used_swap: u64,
    pub disks: Vec<SystemDisks>,
}

/// `m` with `key` bound to the text of `v`, or `m` itself when `v` is `None`.
pub open spec fn put_some(m: Map<Seq<char>, Seq<char>>, key: Seq<char>, v: Option<String>) -> Map<
    Seq<char>,
    Seq<char>,
> {
    match v {
        Some(s) => m.insert(key, s@),
        None => m,
    }
}

/// `m` with the entries of one disk: each of its fields that is present
/// replaces the value under its label.
pub open spec fn put_disk(m: Map<Seq<char>, Seq<char>>, d: SystemDisks) -> Map<
    Seq<char>,
    Seq<char>,
> {
    put_some(
        put_some(put_some(m, "Disk Type"@, d.disk_type), "File System"@, d.file_system),
        "Free Space"@,
        d.free_space,
    )
}

/// `m` with the entries of each disk in turn, so that the last disk that has
/// a field decides its value.
pub open spec fn put_disks(m: Map<Seq<char>, Seq<char>>, disks: Seq<SystemDisks>) -> Map<
    Seq<char>,
    Seq<char>,
>
    decreases disks.len(),
{
    if disks.len() == 0 {
        m
    } else {
        put_disk(put_disks(m, disks.drop_last()), disks.last())
    }
}

/// The labelled values of a snapshot, before its disks.
pub open spec fn base_table(s: SystemInfo) -> Map<Seq<char>, Seq<char>> {
    map![
        "System Name"@ => s.system_name@,
        "System kernel version"@ => s.kernel_version@,
        "System OS version"@ => s.os_version@,
        "Hostname"@ => s.hostname@,
        "CPU Cores"@ => decimal(s.cpu_cores as nat),
        "CPU Virtual Cores"@ => decimal(s.cpu_virtual_cores as nat),
        "Total Memory"@ => decimal(s.total_memory as nat),
        "Used Memory"@ => decimal(s.used_memory as nat),
        "Total Swap"@ => decimal(s.total_swap as nat),
        "Used Swap"@ => decimal(s.used_swap as nat)
    ]
}

/// The whole table of a snapshot: its labelled values, then its disks.
pub open spec fn info_table(s: SystemInfo) -> Map<Seq<char>, Seq<char>> {
    put_disks(base_table(s), s.disks@)
}

impl SystemInfo {
    /// The snapshot as a table from label to text. Numbers are written in
    /// decimal; of the disks, the last one that has a field gives its value.
    pub fn new_to_hashmap(sys_info: Self) -> (r: StringHashMap<String>)
        ensures
            r@.map_values(|v: String| v@) == info_table(sys_info),
    {
        let ghost s = sys_info;
        let mut infomap: StringHashMap<String> = StringHashMap::new();
        infomap.insert("System Name".to_string(), sys_info.system_name);
        infomap.insert("System kernel version".to_string(), sys_info.kernel_version);
        infomap.insert("System OS version".to_string(), sys_info.os_version);
        infomap.insert("Hostname".to_string(), sys_info.hostname);
        infomap.insert("CPU Cores".to_string(), decimal_string(sys_info.cpu_cores as u64));
        infomap.insert(
            "CPU Virtual Cores".to_string(),
            decimal_string(sys_info.cpu_virtual_cores as u64),
        );
        infomap.insert("Total Memory".to_string(), decimal_string(sys_info.total_memory));
        infomap.insert("Used Memory".to_string(), decimal_string(sys_info.used_memory));
        infomap.insert("Total Swap".to_string(), decimal_string(sys_info.total_swap));
        infomap.insert("Used Swap".to_string(), decimal_string(sys_info.used_swap));
        proof {
            assert(infomap@.map_values(|v: String| v@) =~= base_table(s));
            assert(s.disks@.subrange(0, 0) =~= Seq::<SystemDisks>::empty());
        }
        let disks = &sys_info.disks;
        let mut i: usize = 0;
        while i < disks.len()
            invariant
                disks@ == s.disks@,
                0 <= i <= disks.len(),
                infomap@.map_values(|v: String| v@) == put_disks(
                    base_table(s),
                    s.disks@.subrange(0, i as int),
                ),
            decreases disks.len() - i,
        {
            let disk = &disks[i];
            let ghost before = infomap@.map_values(|v: String| v@);
            if let Some(disk_type) = &disk.disk_type {
                infomap.insert("Disk Type".to_string(), disk_type.clone());
            }
            proof {
                assert(infomap@.map_values(|v: String| v@) =~= put_some(
                    before,
                    "Disk Type"@,
                    disk.disk_type,
                ));
            }
            let ghost before = infomap@.map_values(|v: String| v@);
            if let Some(file_system) = &disk.file_system {
                infomap.insert("File System".to_string(), file_system.clone());
            }
            proof {
                assert(infomap@.map_values(|v: String| v@) =~= put_some(
                    before,
                    "File System"@,
                    disk.file_system,
                ));
            }
            let ghost before = infomap@.map_values(|v: String| v@);
            if let Some(free_space) = &disk.free_space {
                infomap.insert("Free Space".to_string(), free_space.clone());
            }
            proof {
                assert(infomap@.map_values(|v: String| v@) =~= put_some(
                    before,
                    "Free Space"@,
                    disk.free_space,
                ));
                assert(s.disks@.subrange(0, i + 1).drop_last() =~= s.disks@.subrange(0, i as int));
            }
            i = i + 1;
        }
        proof {
            assert(s.disks@.subrange(0, s.disks@.len() as int) =~= s.disks@);
        }
        infomap
    }
}

} // verus!

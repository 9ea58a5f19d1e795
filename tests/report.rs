use gatling::filename::{sanitize_filename, sanitize_lowercase};
use gatling::report::{sysinfo_string, SysInfo};
use gatling::text::push_decimal;

#[test]
fn sysinfo_text_layout() {
    let info = SysInfo {
        os_name: "Linux 22.04 Ubuntu".to_string(),
        kernel_version: "6.5.0".to_string(),
        arch: "x86_64".to_string(),
        cpu_count: 16,
        cpu_frequency: 3200,
        cpu_brand: "AMD Ryzen 7".to_string(),
        memory: 34359738368 + 5,
    };
    assert_eq!(
        sysinfo_string(&info),
        "CPU Count: 16\nCPU Model: AMD Ryzen 7\nCPU Speed (MHz): 3200\nTotal Memory: 32 GB\n\
         Platform: Linux 22.04 Ubuntu\nRelease: 6.5.0\nArchitecture: x86_64"
    );
}

#[test]
fn sysinfo_small_memory_rounds_down() {
    let info = SysInfo {
        os_name: String::new(),
        kernel_version: String::new(),
        arch: String::new(),
        cpu_count: 0,
        cpu_frequency: 0,
        cpu_brand: String::new(),
        memory: 1073741823,
    };
    assert_eq!(
        sysinfo_string(&info),
        "CPU Count: 0\nCPU Model: \nCPU Speed (MHz): 0\nTotal Memory: 0 GB\nPlatform: \nRelease: \nArchitecture: "
    );
}

#[test]
fn decimal_digits() {
    for n in [0u64, 7, 10, 99, 1234567890, u64::MAX] {
        let mut s = String::from("x");
        push_decimal(&mut s, n);
        assert_eq!(s, format!("x{}", n));
    }
}

#[test]
fn sanitize_replaces_reserved_and_lowercases() {
    assert_eq!(sanitize_filename("Erc20 Transfers"), "erc20_transfers");
    assert_eq!(sanitize_filename("A/B\\C:D*E?F\"G<H>I|J"), "a_b_c_d_e_f_g_h_i_j");
    assert_eq!(sanitize_filename("tab\there\nline\u{7f}\u{85}"), "tab_here_line__");
    assert_eq!(sanitize_filename(""), "");
    assert_eq!(sanitize_filename("ÄÖÜ"), "äöü");
}

#[test]
fn sanitize_truncates_to_255_bytes() {
    let long = "X".repeat(300);
    assert_eq!(sanitize_filename(&long), "x".repeat(255));
    let exact = "b".repeat(255);
    assert_eq!(sanitize_filename(&exact), exact);
}

#[test]
fn sanitize_cuts_on_character_boundary() {
    let s = format!("{}é", "a".repeat(254));
    assert_eq!(sanitize_filename(&s), "a".repeat(254));
    let t = format!("{}é", "a".repeat(253));
    assert_eq!(sanitize_filename(&t), t);
}

#[test]
fn sanitize_already_lowercase() {
    let chars: Vec<char> = "Keep Case".chars().collect();
    assert_eq!(sanitize_lowercase(&chars), "Keep_Case");
}

use nanokvm::hardware::{gpio_button, GpioButton, HardwareConfig, HardwareVersion, VmController};
use nanokvm::health::{
    assess_status, cache_is_fresh, capacity_bytes, compute_health_score, diskstats_counts, eol_from_text,
    io_errors_from_stat, should_warn, wear_level_from_text, EolStatus, HealthStatus,
};
use nanokvm::storage::{StorageError, StorageManager};
use nanokvm::vm::{
    inittab_without_swap, interface_kind, is_script_name, mdns_name, memory_limit_from_text, memory_limit_to_store,
    oled_sleep_from_text, sanitize_file_name, swap_create_command, swap_plan, validate_hostname,
    validate_script_path, virtual_device, web_title_to_store, SetMemoryLimitReq, SwapPlan, VirtualDevice,
};

#[test]
fn health_score_penalties_add_up() {
    assert_eq!(compute_health_score(None, 0, None, None), 100);
    assert_eq!(compute_health_score(Some(5), 0, None, None), 50);
    assert_eq!(compute_health_score(Some(20), 11, Some(65), None), 55);
    assert_eq!(compute_health_score(Some(5), 200, Some(80), Some(EolStatus::PreEolWarning)), 0);
    assert_eq!(compute_health_score(Some(90), 1, Some(51), Some(EolStatus::Normal)), 92);
    assert_eq!(compute_health_score(None, 0, None, Some(EolStatus::EndOfLife)), 0);
}

#[test]
fn more_errors_never_raise_the_score() {
    for e in [0u32, 1, 11, 51, 101] {
        for f in [e, e + 1, e + 60] {
            assert!(compute_health_score(Some(40), f, Some(55), None) <= compute_health_score(Some(40), e, Some(55), None));
        }
    }
}

#[test]
fn health_status_from_score() {
    assert_eq!(assess_status(100, 0, Some(EolStatus::EndOfLife)), HealthStatus::Fail);
    assert_eq!(assess_status(100, 0, Some(EolStatus::PreEolWarning)), HealthStatus::Warning);
    assert_eq!(assess_status(100, 51, None), HealthStatus::Fail);
    assert_eq!(assess_status(100, 11, None), HealthStatus::Warning);
    assert_eq!(assess_status(80, 0, None), HealthStatus::Good);
    assert_eq!(assess_status(79, 0, None), HealthStatus::Fair);
    assert_eq!(assess_status(20, 0, None), HealthStatus::Warning);
    assert_eq!(assess_status(19, 0, None), HealthStatus::Fail);
    assert_eq!(HealthStatus::Warning.name(), "WARNING");
    assert!(should_warn(HealthStatus::Good, HealthStatus::Fail));
    assert!(!should_warn(HealthStatus::Fail, HealthStatus::Fail));
    assert!(!should_warn(HealthStatus::Fail, HealthStatus::Good));
}

#[test]
fn card_readings_are_parsed() {
    assert_eq!(eol_from_text("02"), EolStatus::PreEolWarning);
    assert_eq!(eol_from_text("end of life"), EolStatus::EndOfLife);
    assert_eq!(eol_from_text("?"), EolStatus::Unknown);
    assert_eq!(wear_level_from_text("0x01 0x02"), None);
    assert_eq!(wear_level_from_text(" 7 9"), Some(7));
    assert_eq!(wear_level_from_text("300"), Some(44));
    assert_eq!(io_errors_from_stat("1 2 3 4 5 6 7 8 9 10 11 12 13 14"), (5, 11));
    assert_eq!(io_errors_from_stat("1 2 3"), (0, 0));
    let stats = " 179 0 mmcblk0 10 0 20 0 30 0 40 0 0 0 0\n 179 1 mmcblk0p1 1 0 2 0 3 0 4 0 0 0 0\n";
    assert_eq!(diskstats_counts(stats), (20, 40));
    assert_eq!(capacity_bytes(1000), 512000);
    assert!(cache_is_fresh(1000 + 86399, 1000));
    assert!(!cache_is_fresh(1000 + 86400, 1000));
}

#[test]
fn images_may_be_deleted_only_from_the_image_directory() {
    assert!(StorageManager::is_image_path("/data/a.ISO"));
    assert!(StorageManager::is_image_path("/data/b.img"));
    assert!(!StorageManager::is_image_path("/data/c.txt"));
    assert!(StorageManager::check_deletable("/data/a.iso").is_ok());
    assert!(matches!(StorageManager::check_deletable("/etc/a.iso"), Err(StorageError::InvalidFilename(m)) if m == "Not in image directory"));
    assert!(matches!(StorageManager::check_deletable("/data/a.txt"), Err(StorageError::InvalidFilename(m)) if m == "Invalid extension"));
}

#[test]
fn mounting_writes_the_gadget_settings() {
    let p = StorageManager::mount_plan(Some("/data/a.iso"), true);
    assert!(p.read_only && p.cdrom);
    assert_eq!(p.inquiry, "NanoKVM USB CD/DVD-ROM  0520");
    assert_eq!(p.file, "/data/a.iso");
    let p = StorageManager::mount_plan(None, false);
    assert!(p.read_only);
    assert_eq!(p.file, "/dev/mmcblk0p3");
    assert_eq!(p.inquiry, "NanoKVM USB Disk        0520");
    let p = StorageManager::mount_plan(Some("/data/b.img"), false);
    assert!(!p.read_only);
    assert_eq!(StorageManager::mounted_image_from_text(" /dev/mmcblk0p3\n"), None);
    assert_eq!(StorageManager::mounted_image_from_text("/data/a.iso\n"), Some("/data/a.iso".to_string()));
}

#[test]
fn hardware_revisions_and_lines() {
    assert_eq!(HardwareVersion::from_text("beta\n"), HardwareVersion::Beta);
    assert_eq!(HardwareVersion::from_text("other"), HardwareVersion::Alpha);
    assert_eq!(HardwareVersion::Pcie.display_name(), "PCIE");
    let alpha = HardwareConfig::get(HardwareVersion::Alpha);
    assert_eq!(alpha.gpio_reset, "/sys/class/gpio/gpio507/value");
    assert_eq!(alpha.gpio_hdd_led, Some("/sys/class/gpio/gpio505/value"));
    assert_eq!(HardwareConfig::get(HardwareVersion::Beta).gpio_hdd_led, None);
    let vm = VmController::for_version(HardwareVersion::Beta);
    assert_eq!(vm.get_version(), HardwareVersion::Beta);
    assert_eq!(vm.button_line(GpioButton::Reset), "/sys/class/gpio/gpio505/value");
    assert_eq!(vm.button_line(GpioButton::Power), "/sys/class/gpio/gpio503/value");
    assert!(VmController::led_on("0\n"));
    assert!(!VmController::led_on("1"));
    assert_eq!(gpio_button("power"), Some(GpioButton::Power));
    assert_eq!(gpio_button("x"), None);
}

#[test]
fn script_names_are_sanitised() {
    assert_eq!(sanitize_file_name("my script;rm.sh"), Some("my scriptrm.sh".to_string()));
    assert_eq!(sanitize_file_name("../../etc"), None);
    assert_eq!(sanitize_file_name("$$$"), None);
    assert_eq!(validate_script_path("/etc/kvm/scripts", "a.sh"), Some("/etc/kvm/scripts/a.sh".to_string()));
    assert!(is_script_name("RUN.SH"));
    assert!(is_script_name("x.py"));
    assert!(!is_script_name("x.txt"));
}

#[test]
fn host_names_titles_and_limits() {
    assert!(validate_hostname("nano-kvm.local"));
    assert!(!validate_hostname(".bad"));
    assert!(!validate_hostname("bad."));
    assert!(!validate_hostname(""));
    assert!(!validate_hostname("under_score"));
    assert!(!validate_hostname(&"a".repeat(64)));
    assert_eq!(web_title_to_store("NanoKVM"), None);
    assert_eq!(web_title_to_store(""), None);
    assert_eq!(web_title_to_store("Lab"), Some("Lab".to_string()));
    assert_eq!(memory_limit_to_store(SetMemoryLimitReq { enabled: true, limit: 10 }), Some(50));
    assert_eq!(memory_limit_to_store(SetMemoryLimitReq { enabled: true, limit: 200 }), Some(200));
    assert_eq!(memory_limit_to_store(SetMemoryLimitReq { enabled: false, limit: 200 }), None);
    assert_eq!(memory_limit_from_text(" 128\n"), 128);
    assert_eq!(memory_limit_from_text("x"), 0);
    assert_eq!(oled_sleep_from_text("-5"), -5);
    assert_eq!(oled_sleep_from_text("99999999999"), 0);
}

#[test]
fn swap_changes() {
    assert_eq!(swap_plan(256, 256), SwapPlan::Keep);
    assert_eq!(swap_plan(0, 256), SwapPlan::Disable);
    assert_eq!(swap_plan(512, 256), SwapPlan::Create { remove_old: true });
    assert_eq!(swap_plan(512, 0), SwapPlan::Create { remove_old: false });
    assert_eq!(
        swap_create_command(256),
        "fallocate -l 256M /swapfile && chmod 600 /swapfile && mkswap /swapfile && swapon /swapfile"
    );
    assert_eq!(inittab_without_swap("a\nswapon /swapfile\nb\n"), "a\nb");
}

#[test]
fn virtual_devices_and_interfaces() {
    assert_eq!(virtual_device("disk"), Some(VirtualDevice::Disk));
    assert_eq!(virtual_device("cdrom"), None);
    assert_eq!(VirtualDevice::Network.flag_file(), "/boot/usb.rndis0");
    assert_eq!(
        VirtualDevice::Disk.toggle_commands(false),
        vec!["touch /boot/usb.disk0", "/etc/init.d/S03usbdev stop", "/etc/init.d/S03usbdev start"]
    );
    assert_eq!(VirtualDevice::Network.toggle_commands(true).len(), 4);
    assert_eq!(interface_kind("eth0"), Some("Wired"));
    assert_eq!(interface_kind("wlan0"), Some("Wireless"));
    assert_eq!(interface_kind("lo"), None);
    assert_eq!(mdns_name(" kvm \n"), "kvm.local");
    assert_eq!(mdns_name(""), "");
}

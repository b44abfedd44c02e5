use leo_status_driver::dto::{drive_current, ConfigResponse, LockStatusResponse, PllParamsResponse};
use leo_status_driver::{GpsdoConfig, GpsdoStatus};

fn sample_report(level: u8) -> [u8; 21] {
    let mut report = [0u8; 21];
    report[0] = 0b11;
    report[1] = level;
    report[2] = 0x80;
    report[3] = 0x96;
    report[4] = 0x98;
    report[8] = 1;
    report[9] = 9;
    report[12] = 6;
    report[13] = 4;
    report[16] = 9;
    report[19] = 3;
    report[20] = 15;
    report
}

#[test]
fn drive_current_of_each_level() {
    assert_eq!(drive_current(0), 8);
    assert_eq!(drive_current(1), 16);
    assert_eq!(drive_current(2), 24);
    assert_eq!(drive_current(3), 32);
    for level in 4..=255u8 {
        assert_eq!(drive_current(level), 0);
    }
}

#[test]
fn status_response_copies_the_status() {
    let response = LockStatusResponse::from(GpsdoStatus::from_report(&[23, 0b10]));
    assert_eq!(response.loss_count, 23);
    assert!(response.sat_lock);
    assert!(!response.pll_lock);
    assert!(!response.locked);
}

#[test]
fn pll_response_carries_dividers_and_loop_frequencies() {
    let response = PllParamsResponse::from(GpsdoConfig::from_report(&sample_report(0)));
    assert_eq!(response.fin, 10_000_000);
    assert_eq!(response.n3, 1);
    assert_eq!(response.n2_hs, 5);
    assert_eq!(response.n2_ls, 10);
    assert_eq!(response.n1_hs, 10);
    assert_eq!(response.nc1_ls, 5);
    assert_eq!(response.nc2_ls, 10);
    assert_eq!(response.skew, 3);
    assert_eq!(response.bw, 15);
    assert_eq!(response.f3, 10_000_000);
    assert_eq!(response.fosc, 500_000_000);
}

#[test]
fn config_response_carries_drive_current_and_outputs() {
    let response = ConfigResponse::from(GpsdoConfig::from_report(&sample_report(2)));
    assert!(response.output1);
    assert!(response.output2);
    assert_eq!(response.level, 24);
    assert_eq!(response.fout1, 10_000_000);
    assert_eq!(response.fout2, 5_000_000);
    assert_eq!(response.pll_params.fin, 10_000_000);
    assert_eq!(response.pll_params.fosc, 500_000_000);

    let response = ConfigResponse::from(GpsdoConfig::from_report(&sample_report(4)));
    assert_eq!(response.level, 0);
}

use term_render::FPSCapper;

#[test]
fn capper_new_derives_budget() {
    let c = FPSCapper::new(10);
    assert_eq!((c.fps, c.fps_limit, c.ms_per_frame), (10, 10, 100));
    let u = FPSCapper::new(0);
    assert_eq!((u.fps, u.fps_limit, u.ms_per_frame), (0, 0, 0));
    let odd = FPSCapper::new(30);
    assert_eq!(odd.ms_per_frame, 33);
}

#[test]
fn capper_under_budget_sleeps_shortfall() {
    let mut c = FPSCapper::new(10);
    let sleep = c.cap(40);
    assert_eq!(sleep, 60);
    assert_eq!(c.fps, 10);
}

#[test]
fn capper_uncapped_reports_measured() {
    let mut c = FPSCapper::new(0);
    let sleep = c.cap(20);
    assert_eq!(sleep, 0);
    assert_eq!(c.fps, 50);
}

#[test]
fn capper_over_budget_reports_measured() {
    let mut c = FPSCapper::new(10);
    let sleep = c.cap(150);
    assert_eq!(sleep, 0);
    assert_eq!(c.fps, 6);
}

#[test]
fn capper_at_budget_does_not_sleep() {
    let mut c = FPSCapper::new(10);
    assert_eq!(c.cap(100), 0);
    assert_eq!(c.fps, 10);
}

#[test]
fn capper_zero_length_frame() {
    let mut c = FPSCapper::new(0);
    assert_eq!(c.cap(0), 0);
    assert_eq!(c.fps, 1000);
    let mut d = FPSCapper::new(10);
    assert_eq!(d.cap(0), 100);
    assert_eq!(d.fps, 10);
}

#[test]
fn capper_set_changes_budget() {
    let mut c = FPSCapper::new(10);
    c.cap(150);
    c.set(20).set(25);
    assert_eq!((c.fps, c.fps_limit, c.ms_per_frame), (6, 25, 40));
    assert_eq!(c.cap(10), 30);
    assert_eq!(c.fps, 25);
    c.set(0);
    assert_eq!(c.ms_per_frame, 0);
    assert_eq!(c.cap(10), 0);
    assert_eq!(c.fps, 100);
}

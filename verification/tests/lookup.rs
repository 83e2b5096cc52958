use dumpsys_rs::error::Error;
use dumpsys_rs::BoundDumpsys;
use dumpsys_rs::Dumpsys;

// On a host without the binder runtime every name lookup fails, so the
// resolution paths must all surface ServiceNotExist rather than panic, hang
// or succeed.

#[test]
fn one_shot_dump_without_the_runtime_reports_service_not_exist() {
    match dumpsys_rs::dump("SurfaceFlinger", &[]) {
        Err(Error::ServiceNotExist) => {}
        _ => panic!("a failed lookup must surface ServiceNotExist"),
    }
}

#[test]
fn binding_without_the_runtime_reports_service_not_exist() {
    match BoundDumpsys::new("SurfaceFlinger") {
        Err(Error::ServiceNotExist) => {}
        _ => panic!("a failed lookup must surface ServiceNotExist"),
    }
}

#[test]
fn failed_insert_leaves_the_cache_unchanged() {
    let mut cache = Dumpsys::new().unwrap();
    match cache.insert_service("SurfaceFlinger") {
        Err(Error::ServiceNotExist) => {}
        _ => panic!("a failed lookup must surface ServiceNotExist"),
    }
    match cache.dump("SurfaceFlinger", &[]) {
        Err(Error::NoEntryFound) => {}
        _ => panic!("a failed insert must not populate the cache"),
    }
}

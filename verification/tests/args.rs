use ip_geolocate::args::{Args, DEFAULT_PORT, DEFAULT_TTL_CACHE};

#[test]
fn default_args_are_port_8080_and_half_an_hour() {
    let args = Args::default();
    assert_eq!(args.port, 8080);
    assert_eq!(args.ttl_cache, 30 * 60);
    assert_eq!(DEFAULT_PORT, 8080);
    assert_eq!(DEFAULT_TTL_CACHE, 1800);
}

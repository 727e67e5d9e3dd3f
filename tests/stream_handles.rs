use media_stream::{
    lower_bound, seek_bounds, seek_status, upper_bound, Context, Dictionary, Error, Parameters,
    Rational, SeekRequest, TimestampBound, TimestampRange, EINVAL,
};

fn container_with(n: usize) -> Context {
    let mut c = Context::new();
    for _ in 0..n {
        c.add_stream();
    }
    c
}

#[test]
fn excluded_upper_at_minimum_saturates() {
    let r = TimestampRange { start: TimestampBound::Included(-5), end: TimestampBound::Excluded(i64::MIN) };
    assert_eq!(seek_bounds(r), (-5, i64::MIN));
    assert_eq!(upper_bound(TimestampBound::Excluded(i64::MIN)), i64::MIN);
    let r = TimestampRange { start: TimestampBound::Unbounded, end: TimestampBound::Excluded(i64::MIN) };
    assert_eq!(seek_bounds(r).1, i64::MIN);
}

#[test]
fn included_lower_at_maximum_stays() {
    let r = TimestampRange { start: TimestampBound::Included(i64::MAX), end: TimestampBound::Included(7) };
    assert_eq!(seek_bounds(r), (i64::MAX, 7));
    assert_eq!(lower_bound(TimestampBound::Excluded(i64::MAX)), i64::MAX);
}

#[test]
fn unbounded_range_spans_everything() {
    assert_eq!(seek_bounds(TimestampRange::full()), (i64::MIN, i64::MAX));
    assert_eq!(lower_bound(TimestampBound::Unbounded), i64::MIN);
    assert_eq!(upper_bound(TimestampBound::Unbounded), i64::MAX);
}

#[test]
fn excluded_bounds_step_inwards() {
    assert_eq!(lower_bound(TimestampBound::Excluded(10)), 11);
    assert_eq!(upper_bound(TimestampBound::Excluded(10)), 9);
    assert_eq!(seek_bounds(TimestampRange::half_open(500, 1500)), (500, 1499));
    assert_eq!(seek_bounds(TimestampRange::starting_at(-3)), (-3, i64::MAX));
    assert_eq!(seek_bounds(TimestampRange::inclusive(500, 1500)), (500, 1500));
}

#[test]
fn time_base_reads_back() {
    let mut c = container_with(1);
    let mut s = c.stream_mut(0).unwrap();
    s.set_time_base((1, 48000));
    assert_eq!(s.stream().time_base(), Rational::new(1, 48000));
}

#[test]
fn last_write_of_each_rate_wins() {
    let mut c = container_with(2);
    {
        let mut s = c.stream_mut(1).unwrap();
        s.set_time_base((1, 48000));
        s.set_rate((30, 1));
        s.set_avg_frame_rate(Rational::new(2997, 100));
        s.set_time_base((1, 90000));
        s.set_rate((25, 1));
        let v = s.stream();
        assert_eq!(v.index(), 1);
        assert_eq!(v.time_base(), Rational::new(1, 90000));
        assert_eq!(v.rate(), Rational::new(25, 1));
        assert_eq!(v.avg_frame_rate(), Rational::new(2997, 100));
    }
    let other = c.stream(0).unwrap();
    assert_eq!(other.time_base(), Rational::new(0, 1));
    assert_eq!(other.rate(), Rational::new(0, 1));
    let written = c.stream(1).unwrap();
    assert_eq!(written.time_base().numerator(), 1);
    assert_eq!(written.time_base().denominator(), 90000);
}

#[test]
fn second_metadata_replaces_first() {
    let mut c = container_with(1);
    let mut first = Dictionary::new();
    first.set("title", "one");
    first.set("language", "eng");
    let mut second = Dictionary::new();
    second.set("title", "two");
    let mut s = c.stream_mut(0).unwrap();
    s.set_metadata(first);
    s.set_metadata(second);
    let m = s.stream().metadata();
    assert_eq!(m.len(), 1);
    assert_eq!(m.get("title"), Some("two".to_string()));
    assert_eq!(m.get("language"), None);
}

#[test]
fn dictionary_set_replaces_in_place() {
    let mut d = Dictionary::new();
    assert!(d.is_empty());
    d.set("a", "1");
    d.set("b", "2");
    d.set("a", "3");
    assert_eq!(d.len(), 2);
    assert_eq!(d.get("a"), Some("3".to_string()));
    assert_eq!(d.get("b"), Some("2".to_string()));
    assert_eq!(d.get("c"), None);
}

#[test]
fn parameters_are_copied_not_shared() {
    let mut c = container_with(1);
    let mut p = Parameters::new();
    p.set_codec_id(27);
    p.set_width(1920);
    p.set_height(1080);
    p.set_bit_rate(4_000_000);
    p.set_extradata(&[0, 0, 1, 0x67]);
    {
        let mut s = c.stream_mut(0).unwrap();
        s.set_parameters(&p);
    }
    p.set_width(640);
    p.set_extradata(&[9]);
    drop(p);
    let v = c.stream(0).unwrap();
    let q = v.parameters();
    assert_eq!(q.codec_id(), 27);
    assert_eq!(q.width(), 1920);
    assert_eq!(q.height(), 1080);
    assert_eq!(q.bit_rate(), 4_000_000);
    assert_eq!(q.extradata(), &[0, 0, 1, 0x67][..]);
}

#[test]
fn fresh_stream_has_empty_parameters() {
    let c = container_with(1);
    let v = c.stream(0).unwrap();
    assert_eq!(v.parameters().codec_id(), 0);
    assert!(v.parameters().extradata().is_empty());
    assert!(v.metadata().is_empty());
}

#[test]
fn seek_submits_translated_bounds() {
    let mut c = container_with(2);
    {
        let mut s = c.stream_mut(1).unwrap();
        assert_eq!(s.seek(1000, TimestampRange::inclusive(500, 1500)), Ok(()));
    }
    assert_eq!(
        c.last_seek(),
        Some(SeekRequest { stream_index: 1, min_ts: 500, ts: 1000, max_ts: 1500 })
    );
}

#[test]
fn seek_status_maps_codes() {
    assert_eq!(seek_status(-5), Err(Error::SeekFailed(-5)));
    assert_eq!(seek_status(0), Ok(()));
    assert_eq!(seek_status(3), Ok(()));
}

#[test]
fn rejected_seek_reports_status_and_keeps_cursor() {
    let mut c = container_with(1);
    {
        let mut s = c.stream_mut(0).unwrap();
        assert_eq!(s.seek(10, TimestampRange::inclusive(0, 20)), Ok(()));
        assert_eq!(s.seek(1000, TimestampRange::half_open(500, 1000)), Err(Error::SeekFailed(EINVAL)));
        let r = TimestampRange { start: TimestampBound::Excluded(i64::MAX), end: TimestampBound::Unbounded };
        assert_eq!(s.seek(0, r), Err(Error::SeekFailed(EINVAL)));
    }
    assert_eq!(c.last_seek(), Some(SeekRequest { stream_index: 0, min_ts: 0, ts: 10, max_ts: 20 }));
}

#[test]
fn handles_exist_only_for_present_streams() {
    let mut c = container_with(2);
    assert_eq!(c.nb_streams(), 2);
    assert!(c.stream(2).is_none());
    assert!(c.stream_mut(2).is_none());
    assert!(c.stream_mut(1).is_some());
}

#[test]
fn write_handle_downgrades_to_read_view() {
    let mut c = container_with(1);
    let mut s = c.stream_mut(0).unwrap();
    s.set_rate((24000, 1001));
    let v = s.into_stream();
    assert_eq!(v.rate(), Rational::from((24000, 1001)));
    let again = c.stream(0).unwrap();
    assert_eq!(again.rate(), Rational::new(24000, 1001));
}

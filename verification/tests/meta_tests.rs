use locspan::{At, ErrAt, Loc, Location, MapLocErr, Meta, MetaTranspose, Span};

fn loc(file: &str, start: usize, end: usize) -> Location<&str> {
    Location::new(file, Span::new(start, end))
}

#[test]
fn meta_new_and_projections() {
    let mut m = Meta::new(41u32, "here");
    assert_eq!(*m.value(), 41);
    assert_eq!(*m.metadata(), "here");
    *m.value_mut() = 42;
    *m.metadata_mut() = "there";
    assert_eq!(m.into_value(), 42);
    let m = Meta::new(42u32, "there");
    assert_eq!(m.into_metadata(), "there");
}

#[test]
fn meta_map_keeps_metadata() {
    let m = Meta(2u32, "meta").map(|x: u32| x + 1);
    assert_eq!(m, Meta(3u32, "meta"));
}

#[test]
fn meta_try_map_success_keeps_metadata() {
    let r: Result<Meta<u32, &str>, String> = Meta(2u32, "meta").try_map(|x: u32| Ok(x * 10));
    assert_eq!(r, Ok(Meta(20u32, "meta")));
}

#[test]
fn meta_try_map_failure_drops_metadata() {
    let r: Result<Meta<u32, &str>, String> =
        Meta(2u32, "meta").try_map(|_x: u32| Err("boom".to_string()));
    assert_eq!(r, Err("boom".to_string()));
}

#[test]
fn meta_cast_value() {
    let m: Meta<u64, &str> = Meta(7u32, "meta").cast();
    assert_eq!(m, Meta(7u64, "meta"));
}

#[test]
fn meta_try_cast_value() {
    let ok: Result<Meta<u32, &str>, _> = Meta(7u64, "meta").try_cast();
    assert_eq!(ok, Ok(Meta(7u32, "meta")));
    let too_big: Result<Meta<u32, &str>, _> = Meta(u64::MAX, "meta").try_cast();
    assert!(too_big.is_err());
}

#[test]
fn meta_map_metadata() {
    let m = Meta("value", 3u32).map_metadata(|n: u32| n * 2);
    assert_eq!(m, Meta("value", 6u32));
}

#[test]
fn meta_try_map_metadata() {
    let ok: Result<Meta<&str, u32>, String> = Meta("value", 3u32).try_map_metadata(|n: u32| Ok(n));
    assert_eq!(ok, Ok(Meta("value", 3u32)));
    let err: Result<Meta<&str, u32>, String> =
        Meta("value", 3u32).try_map_metadata(|_n: u32| Err("no".to_string()));
    assert_eq!(err, Err("no".to_string()));
}

#[test]
fn meta_cast_metadata() {
    let m: Meta<&str, u64> = Meta("value", 3u32).cast_metadata();
    assert_eq!(m, Meta("value", 3u64));
}

#[test]
fn meta_try_cast_metadata() {
    let ok: Result<Meta<&str, u32>, _> = Meta("value", 3u64).try_cast_metadata();
    assert_eq!(ok, Ok(Meta("value", 3u32)));
}

#[test]
fn meta_borrow_and_cloned() {
    let m = Meta(5u32, "meta".to_string());
    let b = m.borrow();
    assert_eq!(*b.0, 5);
    let c = b.cloned();
    assert_eq!(c, Meta(5u32, "meta".to_string()));
    let bv = m.borrow_value();
    assert_eq!(*bv.0, 5);
    assert_eq!(bv.1, "meta".to_string());
    let bm = m.borrow_metadata();
    assert_eq!(bm.0, 5);
}

#[test]
fn meta_cloned_value_variants() {
    let v = 5u32;
    let m = Meta(&v, "meta".to_string());
    assert_eq!(m.cloned_value(), Meta(5u32, "meta".to_string()));
    assert_eq!(m.into_cloned_value(), Meta(5u32, "meta".to_string()));
    let s = "meta".to_string();
    let m2 = Meta(5u32, &s);
    assert_eq!(m2.cloned_metadata(), Meta(5u32, "meta".to_string()));
    assert_eq!(m2.into_cloned_metadata(), Meta(5u32, "meta".to_string()));
}

#[test]
fn meta_none_has_unit_metadata() {
    let m = Meta::none(9u32);
    assert_eq!(m, Meta(9u32, ()));
}

#[test]
fn meta_unwrap_and_transpose() {
    let m: Meta<Option<u32>, &str> = Meta(Some(4u32), "meta");
    assert_eq!(m.unwrap(), Meta(4u32, "meta"));
    let m: Meta<Option<u32>, &str> = Meta(Some(4u32), "meta");
    assert_eq!(m.transpose(), Some(Meta(4u32, "meta")));
    let n: Meta<Option<u32>, &str> = Meta(None, "meta");
    assert_eq!(n.transpose(), None);
}

#[test]
fn at_wraps_any_value() {
    let m = 3u32.at(loc("a.txt", 0, 1));
    assert_eq!(m.0, 3);
    assert_eq!(*m.file(), "a.txt");
}

#[test]
fn meta_transpose_none_calls_metadata_maker() {
    let some: Option<Meta<u32, &str>> = Some(Meta(1u32, "kept"));
    assert_eq!(some.meta_transpose(|| "made"), Meta(Some(1u32), "kept"));
    let none: Option<Meta<u32, &str>> = None;
    assert_eq!(none.meta_transpose(|| "made"), Meta(None, "made"));
}

#[test]
fn err_at_wraps_only_errors() {
    let ok: Result<u32, &str> = Ok(5);
    assert_eq!(ok.err_at(|| "meta"), Ok(5));
    let err: Result<u32, &str> = Err("bad");
    assert_eq!(err.err_at(|| "meta"), Err(Meta("bad", "meta")));
}

#[test]
fn map_loc_err_maps_error_value_only() {
    let ok: Result<u32, Meta<&str, u32>> = Ok(5);
    assert_eq!(ok.map_loc_err(|e: &str| e.len()), Ok(5));
    let err: Result<u32, Meta<&str, u32>> = Err(Meta("bad", 7u32));
    assert_eq!(err.map_loc_err(|e: &str| e.len()), Err(Meta(3usize, 7u32)));
}

#[test]
fn loc_constructor_and_accessors() {
    let mut l = Loc(10u32, loc("a.txt", 2, 5));
    assert_eq!(*l.file(), "a.txt");
    assert_eq!(l.span(), Span::new(2, 5));
    assert_eq!(*l.location(), loc("a.txt", 2, 5));
    let previous = l.set_span(Span::new(3, 6));
    assert_eq!(previous, Span::new(2, 5));
    assert_eq!(l.span(), Span::new(3, 6));
    let previous = l.set_file("b.txt");
    assert_eq!(previous, "a.txt");
    assert_eq!(*l.file(), "b.txt");
    l.span_mut().push(1);
    assert_eq!(l.span(), Span::new(3, 7));
    *l.file_mut() = "c.txt";
    assert_eq!(*l.file(), "c.txt");
    l.location_mut().span.clear();
    assert_eq!(l.span(), Span::new(7, 7));
}

#[test]
fn loc_into_parts() {
    let l = Loc(10u32, loc("a.txt", 2, 5));
    assert_eq!(l.into_location(), loc("a.txt", 2, 5));
    let l = Loc(10u32, loc("a.txt", 2, 5));
    assert_eq!(l.into_file(), "a.txt");
    let l = Loc(10u32, loc("a.txt", 2, 5));
    assert_eq!(l.into_span(), Span::new(2, 5));
}

#[test]
fn loc_map_location_and_file() {
    let l = Loc(10u32, loc("a.txt", 2, 5));
    let l = l.map_location(|location: Location<&str>| location.until(9));
    assert_eq!(l.span(), Span::new(2, 9));
    let l = l.map_file(|f: &str| f.len());
    assert_eq!(*l.file(), 5);
    assert_eq!(l.span(), Span::new(2, 9));
}

#[test]
fn loc_borrow_and_cloned_file() {
    let l = Loc(10u32, Location::new("a.txt".to_string(), Span::new(2, 5)));
    let borrowed = l.borrow_file();
    assert_eq!(borrowed.0, 10);
    assert_eq!(*borrowed.file(), &"a.txt".to_string());
    assert_eq!(borrowed.cloned_file(), l);
    let b2 = l.borrow_file();
    assert_eq!(b2.into_cloned_file(), l);
    let v = 10u32;
    let name = "a.txt".to_string();
    let both = Loc(&v, Location::new(&name, Span::new(2, 5)));
    assert_eq!(
        both.cloned(),
        Loc(10u32, Location::new("a.txt".to_string(), Span::new(2, 5)))
    );
    let bvf = l.borrow_value_and_file();
    assert_eq!(*bvf.0, 10);
}

#[test]
fn location_builders() {
    let l = loc("a.txt", 2, 5).until(9);
    assert_eq!(l.span, Span::new(2, 9));
    let l = loc("a.txt", 2, 5).with(Span::new(10, 12));
    assert_eq!(l.span, Span::new(2, 12));
    let l = loc("a.txt", 2, 5);
    assert_eq!(l.into_parts(), ("a.txt", Span::new(2, 5)));
    let l = loc("a.txt", 2, 5);
    assert_eq!(l.map(|f: &str| f.len()), Location::new(5usize, Span::new(2, 5)));
    let l = loc("a.txt", 2, 5);
    let c: Location<String> = l.cast();
    assert_eq!(c, Location::new("a.txt".to_string(), Span::new(2, 5)));
}

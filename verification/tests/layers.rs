use lnradar::layers::{
    age_layer, create_layer, list_layer, LayerTask, LayerWork, LNRADAR_AGE_PERIOD_SECS,
    LNRADAR_AGE_TIME_SECS, LNRADAR_LAYER,
};

#[test]
fn a_missing_layer_is_created() {
    let first = LayerTask::first();
    assert_eq!(first, LayerTask::List);
    assert_eq!(first.next(true), LayerTask::Sleep);
    assert_eq!(first.next(false), LayerTask::Create);
    assert_eq!(LayerTask::Create.next(true), LayerTask::Sleep);
    assert_eq!(LayerTask::Create.next(false), LayerTask::Sleep);
}

#[test]
fn aging_goes_on_whatever_fails() {
    for ok in [true, false] {
        assert_eq!(LayerTask::Sleep.next(ok), LayerTask::AgeLayer);
        assert_eq!(LayerTask::AgeLayer.next(ok), LayerTask::AgeDisabled);
        assert_eq!(LayerTask::AgeDisabled.next(ok), LayerTask::Sleep);
    }
}

#[test]
fn layer_requests_name_the_layer() {
    assert_eq!(LNRADAR_LAYER, "lnradar");
    assert_eq!(
        list_layer(LNRADAR_LAYER).layer,
        Some("lnradar".to_string())
    );
    let create = create_layer(LNRADAR_LAYER);
    assert_eq!(create.layer, "lnradar");
    assert_eq!(create.persistent, Some(true));
}

#[test]
fn a_layer_forgets_what_is_older_than_a_day() {
    assert_eq!(LNRADAR_AGE_PERIOD_SECS, 60);
    let request = age_layer(1_700_086_400, LNRADAR_LAYER, LNRADAR_AGE_TIME_SECS);
    assert_eq!(request.layer, "lnradar");
    assert_eq!(request.cutoff, 1_700_000_000);
    assert_eq!(age_layer(5, "x", 5).cutoff, 0);
}

#[test]
fn the_caretaker_ages_every_minute() {
    for found in [true, false] {
        for ok in [true, false] {
            let mut task = LayerTask::first();
            match task.work() {
                LayerWork::List(r) => assert_eq!(r.layer, Some("lnradar".to_string())),
                other => panic!("{other:?}"),
            }
            task = task.next(found);
            if !found {
                match task.work() {
                    LayerWork::Create(r) => {
                        assert_eq!(r.layer, "lnradar");
                        assert_eq!(r.persistent, Some(true));
                    }
                    other => panic!("{other:?}"),
                }
                task = task.next(ok);
            }
            for _ in 0..3 {
                assert!(matches!(task.work(), LayerWork::Wait(60)));
                task = task.next(true);
                match task.work() {
                    LayerWork::AgeLayer(layer, 86400) => assert_eq!(layer, "lnradar"),
                    other => panic!("{other:?}"),
                }
                task = task.next(ok);
                match task.work() {
                    LayerWork::AgeDisabled(layer, 86400) => assert_eq!(layer, "lnradar"),
                    other => panic!("{other:?}"),
                }
                task = task.next(ok);
            }
        }
    }
}

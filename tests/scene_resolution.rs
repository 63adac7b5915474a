use natermity::calendar::CalendarDate;
use natermity::scene::{resolve, scene_for_offset, season_offset, CalendarMode, Scene};

fn date(y: i32, m: u32, d: u32) -> CalendarDate {
    CalendarDate::new(y, m, d).unwrap()
}

#[test]
fn gregorian_christmas_eve_is_nativity() {
    assert_eq!(resolve(&date(2024, 12, 24), CalendarMode::Gregorian), Scene::Nativity);
}

#[test]
fn gregorian_december_first_is_anticipation() {
    assert_eq!(resolve(&date(2024, 12, 1), CalendarMode::Gregorian), Scene::Anticipation);
}

#[test]
fn gregorian_january_tenth_is_epiphany() {
    assert_eq!(resolve(&date(2025, 1, 10), CalendarMode::Gregorian), Scene::Epiphany);
}

#[test]
fn gregorian_june_first_is_out_of_season() {
    assert_eq!(resolve(&date(2025, 6, 1), CalendarMode::Gregorian), Scene::OutOfSeason);
}

#[test]
fn orthodox_january_sixth_is_nativity() {
    assert_eq!(resolve(&date(2025, 1, 6), CalendarMode::Orthodox), Scene::Nativity);
}

#[test]
fn july_twenty_fifth_is_nativity() {
    assert_eq!(resolve(&date(2025, 7, 25), CalendarMode::July), Scene::Nativity);
}

#[test]
fn orthodox_december_wraps_to_next_feast() {
    // 2023-12-31 is six days before 2024-01-06.
    assert_eq!(season_offset(&date(2023, 12, 31), CalendarMode::Orthodox), -6);
    assert_eq!(resolve(&date(2023, 12, 31), CalendarMode::Orthodox), Scene::Anticipation);
}

#[test]
fn gregorian_january_wraps_to_previous_feast() {
    // 2025-01-10 is sixteen days after 2024-12-25.
    assert_eq!(season_offset(&date(2025, 1, 10), CalendarMode::Gregorian), 16);
    // 2025-03-01 is 66 days after 2024-12-25.
    assert_eq!(season_offset(&date(2025, 3, 1), CalendarMode::Gregorian), 66);
}

#[test]
fn leap_year_offsets_count_february_29th() {
    // 2024 is a leap year: July 25th is its 207th day.
    assert_eq!(season_offset(&date(2024, 7, 1), CalendarMode::July), -24);
    assert_eq!(season_offset(&date(2024, 12, 25), CalendarMode::Gregorian), 0);
    // 2024-01-31 is 37 days after 2023-12-25.
    assert_eq!(season_offset(&date(2024, 1, 31), CalendarMode::Gregorian), 37);
}

#[test]
fn window_boundaries() {
    assert_eq!(scene_for_offset(-25), Scene::OutOfSeason);
    assert_eq!(scene_for_offset(-24), Scene::Anticipation);
    assert_eq!(scene_for_offset(-2), Scene::Anticipation);
    assert_eq!(scene_for_offset(-1), Scene::Nativity);
    assert_eq!(scene_for_offset(12), Scene::Nativity);
    assert_eq!(scene_for_offset(13), Scene::Epiphany);
    assert_eq!(scene_for_offset(40), Scene::Epiphany);
    assert_eq!(scene_for_offset(41), Scene::OutOfSeason);
}

#[test]
fn every_day_of_a_year_resolves_to_one_scene() {
    let modes = [CalendarMode::Gregorian, CalendarMode::Orthodox, CalendarMode::July];
    for mode in modes {
        let mut counts = [0u32; 4];
        for m in 1..=12u32 {
            for d in 1..=31u32 {
                if let Some(day) = CalendarDate::new(2023, m, d) {
                    let s = resolve(&day, mode);
                    assert!(s.id() < 4);
                    counts[s.id() as usize] += 1;
                }
            }
        }
        assert_eq!(counts.iter().sum::<u32>(), 365);
        assert_eq!(counts[1], 23);
        assert_eq!(counts[2], 14);
        assert_eq!(counts[3], 28);
    }
}

#[test]
fn dates_that_do_not_exist_are_refused() {
    assert!(CalendarDate::new(2023, 2, 29).is_none());
    assert!(CalendarDate::new(2024, 2, 29).is_some());
    assert!(CalendarDate::new(2023, 4, 31).is_none());
    assert!(CalendarDate::new(2023, 13, 1).is_none());
    assert!(CalendarDate::new(2023, 0, 1).is_none());
    assert!(CalendarDate::new(2023, 1, 0).is_none());
    assert!(CalendarDate::new(262142, 1, 1).is_none());
    assert!(CalendarDate::new(262141, 12, 31).is_some());
    assert!(CalendarDate::new(-262143, 1, 1).is_none());
}

#[test]
fn date_getters_give_back_the_fields() {
    let d = date(2024, 3, 9);
    assert_eq!((d.year(), d.month(), d.day()), (2024, 3, 9));
}

#[test]
fn scene_ids_and_feasts() {
    assert_eq!(Scene::OutOfSeason.id(), 0);
    assert_eq!(Scene::Anticipation.id(), 1);
    assert_eq!(Scene::Nativity.id(), 2);
    assert_eq!(Scene::Epiphany.id(), 3);
    assert_eq!(CalendarMode::Gregorian.feast(), (12, 25));
    assert_eq!(CalendarMode::Orthodox.feast(), (1, 6));
    assert_eq!(CalendarMode::July.feast(), (7, 25));
}

#[test]
fn today_is_a_date_that_exists() {
    let now = chrono::Local::now();
    let d = CalendarDate::new(
        chrono::Datelike::year(&now),
        chrono::Datelike::month(&now),
        chrono::Datelike::day(&now),
    )
    .unwrap();
    assert!(d.year() > 2000);
    assert_eq!(CalendarDate::new(d.year(), d.month(), d.day()), Some(d));
    let s = resolve(&d, CalendarMode::Gregorian);
    assert!(s.id() < 4);
}

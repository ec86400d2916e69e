use charts::axis::{AxisValues, get_axis_values};
use charts::bar_chart::BarChart;
use charts::canvas::{MarginBox, Region};
use charts::common::{measure_text_width, RenderError, Series, SeriesCategory, LegendCategory};
use charts::horizontal_bar_chart::HorizontalBarChart;
use charts::theme::{get_default_theme, get_theme};
use charts::color::Color;

// All numeric inputs are in tenths: 120.0 is written 1200.

fn sample_series() -> Vec<Series> {
    vec![
        Series::new(
            "Email".to_string(),
            vec![1200, 1320, 1010, 1340, 900, 2300, 2100],
        ),
        Series::new(
            "Union Ads".to_string(),
            vec![2200, 1820, 1910, 2340, 2900, 3300, 3100],
        ),
        Series::new(
            "Direct".to_string(),
            vec![3200, 3320, 3010, 3340, 3900, 3300, 3200],
        ),
        Series::new(
            "Search Engine".to_string(),
            vec![8200, 9320, 9010, 9340, 12900, 13300, 13200],
        ),
    ]
}

fn week_labels() -> Vec<String> {
    vec![
        "Mon".to_string(),
        "Tue".to_string(),
        "Wed".to_string(),
        "Thu".to_string(),
        "Fri".to_string(),
        "Sat".to_string(),
        "Sun".to_string(),
    ]
}

#[test]
fn bar_chart_basic() {
    let mut bar_chart = BarChart::new(sample_series(), week_labels());
    bar_chart.y_axis_width = 550;
    bar_chart.title_text = "Bar Chart".to_string();
    bar_chart.y_axis_formatter = Some("{c} ml".to_string());
    let out = bar_chart.svg().unwrap();

    // the view box carries the configured size
    assert!(out.starts_with(
        "<svg width=\"600\" height=\"400\" viewBox=\"0 0 600 400\" xmlns=\"http://www.w3.org/2000/svg\">"
    ));
    // one rectangle per (series, category) pair plus the background
    assert_eq!(out.matches("<rect").count(), 1 + 4 * 7);
    // one label per category, per tick, per legend entry, plus the title
    assert_eq!(out.matches("<text").count(), 1 + 4 + 7 + 7);
    // the formatter template wraps every tick label
    assert!(out.contains(">\n0 ml\n<"));
    assert!(out.contains(" ml\n<"));
    // no line traces in a pure bar chart
    assert_eq!(out.matches("<path").count(), 0);
}

#[test]
fn bar_chart_line_mixin() {
    let mut bar_chart = BarChart::new(sample_series(), week_labels());
    bar_chart.series_list[0].category = Some(SeriesCategory::Line);
    bar_chart.y_axis_width = 550;
    bar_chart.title_text = "Bar Chart".to_string();
    bar_chart.legend_category = LegendCategory::Rect;
    bar_chart.y_axis_formatter = Some("{c} ml".to_string());
    let out = bar_chart.svg().unwrap();

    // the line-category series leaves the bar grouping: three bar series
    // remain, and the legend contributes one swatch rectangle per series
    assert_eq!(out.matches("<rect").count(), 1 + 4 + 3 * 7);
    // exactly one path element for the one line-category series
    assert_eq!(out.matches("<path").count(), 1);
}

#[test]
fn bar_chart_renders_identically_twice() {
    let mut bar_chart = BarChart::new(sample_series(), week_labels());
    bar_chart.title_text = "Bar Chart".to_string();
    let first = bar_chart.svg().unwrap();
    let second = bar_chart.svg().unwrap();
    assert_eq!(first, second);
}

#[test]
fn bar_chart_invalid_config_is_structured_error() {
    let mut bar_chart = BarChart::new(sample_series(), week_labels());
    bar_chart.width = 0;
    assert_eq!(bar_chart.svg(), Err(RenderError::InvalidConfig));
    assert_eq!(
        RenderError::InvalidConfig.message(),
        "invalid chart configuration"
    );
}

#[test]
fn bar_chart_empty_categories_render_minimal_document() {
    // An empty label list is an edge case, not an error: the render
    // degrades to background, title and legend.
    let mut bar_chart = BarChart::new(sample_series(), vec![]);
    bar_chart.title_text = "Bar Chart".to_string();
    let out = bar_chart.svg().unwrap();
    assert!(out.starts_with("<svg "));
    assert_eq!(out.matches("<rect").count(), 1);
    assert_eq!(out.matches("<text").count(), 1 + 4);
    assert_eq!(out.matches("<path").count(), 0);
    assert!(out.contains(">\nBar Chart\n<"));
}

#[test]
fn horizontal_bar_chart_empty_categories_render_minimal_document() {
    let mut chart = HorizontalBarChart::new(
        vec![Series::new("v".to_string(), vec![])],
        vec![],
    );
    chart.title_text = "Empty".to_string();
    let out = chart.svg().unwrap();
    assert_eq!(out.matches("<rect").count(), 1);
    assert_eq!(out.matches("<text").count(), 1 + 1);
}

#[test]
fn axis_honors_any_split_up_to_the_working_bound() {
    let data: Vec<i64> = vec![900, 13300];
    let av = get_axis_values(&data, 200, &None);
    assert_eq!(av.data.len(), 201);
    let mut last = av.min - 1;
    let step = (av.max - av.min) / 200;
    for i in 0..=200i64 {
        let tick = av.min + i * step;
        assert!(tick > last);
        last = tick;
    }
    assert!(av.min <= 900 && av.max >= 13300);
}

#[test]
fn bar_chart_split_beyond_working_bound_is_structured_error() {
    let mut bar_chart = BarChart::new(sample_series(), week_labels());
    bar_chart.y_axis_split_number = 1_000_001;
    assert_eq!(bar_chart.svg(), Err(RenderError::InvalidConfig));
}

#[test]
fn horizontal_bar_chart_basic() {
    let mut chart = HorizontalBarChart::new(
        vec![
            Series::new(
                "2011".to_string(),
                vec![182030, 234890, 290340, 1049700, 1317440, 6302300],
            ),
            Series::new(
                "2012".to_string(),
                vec![193250, 234380, 310000, 1215940, 1341410, 6818070],
            ),
        ],
        vec![
            "Brazil".to_string(),
            "Indonesia".to_string(),
            "USA".to_string(),
            "India".to_string(),
            "China".to_string(),
            "World".to_string(),
        ],
    );
    chart.title_text = "World Population".to_string();
    chart.margin.right = 150;
    chart.series_list[0].label_show = true;
    let out = chart.svg().unwrap();

    // one bar per (series, category) pair plus the background
    assert_eq!(out.matches("<rect").count(), 1 + 2 * 6);
    // category labels, tick labels, legend labels, title, and one value
    // label per bar of the first series
    assert_eq!(out.matches("<text").count(), 6 + 7 + 2 + 1 + 6);
    assert!(out.contains(">\nWorld Population\n<"));
    assert!(out.contains(">\nBrazil\n<"));
}

#[test]
fn horizontal_bar_chart_preserves_value_ratios() {
    let mut chart = HorizontalBarChart::new(
        vec![Series::new("v".to_string(), vec![3000, 1500])],
        vec!["A".to_string(), "B".to_string()],
    );
    chart.value_split_number = 2;
    // gutter: one-character labels at font size 140 measure 84, plus the
    // 50 gap; sized so the axis area is exactly the tick range
    chart.width = 100 + 100 + 134 + 4000;
    let out = chart.svg().unwrap();
    // ticks 0, 2000, 4000 over an extent of 4000: bar lengths equal the
    // values themselves, so the 2:1 value ratio carries over exactly
    assert!(out.contains("width=\"300\""));
    assert!(out.contains("width=\"150\""));
}

#[test]
fn axis_values_bound_data_with_split_plus_one_ticks() {
    let data: Vec<i64> = vec![900, 13300, 2100, 9340];
    let av: AxisValues = get_axis_values(&data, 6, &None);
    assert_eq!(av.data.len(), 7);
    assert!(av.min <= 900);
    assert!(av.max >= 13300);
    assert_eq!(av.min, 0);
    assert_eq!(av.max, 30000);
    assert_eq!(
        av.data,
        vec!["0", "500", "1000", "1500", "2000", "2500", "3000"]
    );
}

#[test]
fn axis_offset_maps_ticks_to_extent_ends() {
    let data: Vec<i64> = vec![900, 13300];
    let av = get_axis_values(&data, 6, &None);
    assert_eq!(av.offset(av.min, 3360), 0);
    assert_eq!(av.offset(av.max, 3360), 3360);
    assert_eq!(av.offset(15000, 3000), 1500);
}

#[test]
fn axis_formatter_substitutes_each_tick() {
    let data: Vec<i64> = vec![900, 13300];
    let av = get_axis_values(&data, 6, &Some("{c} ml".to_string()));
    assert_eq!(av.data[0], "0 ml");
    assert_eq!(av.data[6], "3000 ml");
    // a template without the token degrades to plain formatting
    let av = get_axis_values(&data, 6, &Some("ml".to_string()));
    assert_eq!(av.data[0], "0");
}

#[test]
fn axis_empty_data_falls_back_to_zero_range() {
    let data: Vec<i64> = vec![];
    let av = get_axis_values(&data, 4, &None);
    assert_eq!(av.min, 0);
    assert_eq!(av.data.len(), 5);
    assert!(av.max > av.min);
}

#[test]
fn axis_zero_split_falls_back_to_default() {
    let data: Vec<i64> = vec![1000];
    let av = get_axis_values(&data, 0, &None);
    assert_eq!(av.data.len(), 7);
}

#[test]
fn region_children_compose() {
    let root = Region { left: 0, top: 0, width: 6000, height: 4000 };
    let a = MarginBox::new(100, 200, 300, 400);
    let b = MarginBox::new(10, 20, 30, 40);
    let nested = root.child(a).child(b);
    let combined = root.child(a.plus(b));
    assert_eq!(nested, combined);
}

#[test]
fn themes_differ_in_background() {
    assert_eq!(get_default_theme(), "light");
    let light = get_theme("light");
    let dark = get_theme("dark");
    assert!(light.is_light);
    assert!(!dark.is_light);
    assert_eq!(light.background_color, Color::white());
    assert_eq!(dark.background_color, Color::rgb(0x10, 0x0C, 0x2A));
    assert_eq!(light.series_colors[0], Color::rgb(0x54, 0x70, 0xC6));
    assert_eq!(light.series_colors.len(), 6);
}

#[test]
fn deterministic_text_metrics() {
    assert_eq!(measure_text_width("Email", 140), 5 * 140 * 3 / 5);
    assert_eq!(measure_text_width("", 140), 0);
}

#[test]
fn series_new_defaults() {
    let s = Series::new("Email".to_string(), vec![1200]);
    assert_eq!(s.name, "Email");
    assert_eq!(s.data, vec![1200]);
    assert!(s.category.is_none());
    assert!(s.index.is_none());
    assert!(!s.label_show);
}

#[test]
fn bar_chart_area_fill_adds_region_path() {
    let mut bar_chart = BarChart::new(sample_series(), week_labels());
    bar_chart.series_list[0].category = Some(SeriesCategory::Line);
    bar_chart.series_fill = true;
    let out = bar_chart.svg().unwrap();
    // the filled region and the trace itself
    assert_eq!(out.matches("<path").count(), 2);
}

#[test]
fn bar_chart_smooth_line_uses_cubic_path() {
    let mut bar_chart = BarChart::new(sample_series(), week_labels());
    bar_chart.series_list[0].category = Some(SeriesCategory::Line);
    bar_chart.series_smooth = true;
    let out = bar_chart.svg().unwrap();
    assert_eq!(out.matches("<path").count(), 1);
    assert!(out.contains(" C "));
}

#[test]
fn bar_chart_subtitle_and_title_weight() {
    let mut bar_chart = BarChart::new(sample_series(), week_labels());
    bar_chart.title_text = "Bar Chart".to_string();
    bar_chart.title_font_weight = Some("bold".to_string());
    bar_chart.sub_title_text = "with subtitle".to_string();
    let out = bar_chart.svg().unwrap();
    assert!(out.contains("font-weight=\"bold\""));
    assert!(out.contains(">\nwith subtitle\n<"));
    // title, subtitle, legend, tick and category labels
    assert_eq!(out.matches("<text").count(), 2 + 4 + 7 + 7);
}

//! The bar-family chart driver: background, title, legend, axis values,
//! grid, axes, bar groups and line overlays, emitted in one fixed sequence
//! into a canvas and finalized into one document.
//!
//! Series are partitioned by their category tag: bar-category series are
//! spaced evenly within each category slot, line-category series overlay
//! the same axis.  Every coordinate is computed in tenths, so two renders
//! of one configuration are byte-identical.

use vstd::prelude::*;
use crate::axis::{
    AxisValues, get_axis_values, spec_axis_label, spec_axis_min, spec_axis_split, spec_axis_step,
    spec_offset,
};
use crate::canvas::{
    Canvas, MarginBox, Region, spec_canvas_svg, spec_translate_rect, spec_translate_line,
    spec_translate_points, spec_translate_grid_params,
};
use crate::color::Color;
use crate::path::spec_points_bounded;
use crate::common::{
    Align, LegendCategory, MAX_VALUE, Point, RenderError, Series, SeriesCategory, div_nn,
    measure_text_width, spec_text_width,
};
use crate::component::{
    Grid, GridParams, Line, Rect, Text, spec_grid_svg, spec_opt_view, spec_smooth_line_svg,
    spec_straight_line_svg, spec_straight_line_fill_svg, spec_text_svg,
};

verus! {

/// Stroke width of axis lines, in tenths.
pub const AXIS_STROKE_WIDTH: i64 = 10;

/// Vertical gap reserved under the title and the legend, in tenths.
pub const TITLE_GAP: i64 = 50;

/// Width of a legend swatch, in tenths.
pub const LEGEND_SWATCH: i64 = 250;

/// Gap between a legend swatch and its label, in tenths.
pub const LEGEND_PAD: i64 = 50;

/// Gap between legend entries, in tenths.
pub const LEGEND_SEP: i64 = 100;

/// Margin on either side of a bar group within its category slot.
pub const BAR_MARGIN: i64 = 50;

/// Gap between the bars of one category slot.
pub const BAR_GAP: i64 = 30;

/// Gap between an axis line and its labels, in tenths.
pub const LABEL_GAP: i64 = 50;

/// The palette color of a series: its assigned index, or its position in
/// the series list when none was assigned; an out-of-range index falls
/// back to the first palette entry.
pub open spec fn spec_series_color(palette: Seq<Color>, idx: Option<usize>, at: int) -> Color {
    let i = match idx {
        Some(x) => x as int,
        None => at,
    };
    if 0 <= i < palette.len() {
        palette[i]
    } else {
        palette[0]
    }
}

/// The palette color of a series.
pub fn series_color(palette: &Vec<Color>, idx: &Option<usize>, at: usize) -> (c: Color)
    requires
        palette@.len() >= 1,
    ensures
        c == spec_series_color(palette@, *idx, at as int),
{
    let i = match idx {
        Some(x) => *x,
        None => at,
    };
    if i < palette.len() {
        palette[i]
    } else {
        palette[0]
    }
}

/// Whether a series belongs to the bar grouping (anything not tagged as a
/// line trace).
pub open spec fn spec_is_bar(s: Series) -> bool {
    s.category != Some(SeriesCategory::Line)
}

/// The left inset of an aligned block of width `w` within `avail`.
pub open spec fn spec_align_x(avail: int, w: int, align: Align) -> int {
    match align {
        Align::Left => 0,
        Align::Center => if w >= avail {
            0
        } else {
            (avail - w) / 2
        },
        Align::Right => if w >= avail {
            0
        } else {
            avail - w
        },
    }
}

/// The left inset of an aligned block.
pub fn align_x(avail: i64, w: i64, align: Align) -> (r: i64)
    requires
        0 <= avail,
        0 <= w,
    ensures
        r == spec_align_x(avail as int, w as int, align),
        0 <= r <= avail,
{
    match align {
        Align::Left => 0,
        Align::Center => if w >= avail {
            0
        } else {
            div_nn(avail - w, 2)
        },
        Align::Right => if w >= avail {
            0
        } else {
            avail - w
        },
    }
}

/// `v` clamped into `lo ..= hi`.
pub open spec fn spec_clamp(v: int, lo: int, hi: int) -> int {
    if v < lo {
        lo
    } else if v > hi {
        hi
    } else {
        v
    }
}

/// A bar chart: numeric series drawn as grouped bars (with optional line
/// overlays) over labeled category slots.
pub struct BarChart {
    pub width: i64,
    pub height: i64,
    pub margin: MarginBox,
    pub series_list: Vec<Series>,
    pub font_family: String,
    pub background_color: Color,
    pub is_light: bool,
    pub title_text: String,
    pub title_font_size: i64,
    pub title_font_color: Color,
    pub title_font_weight: Option<String>,
    pub title_align: Align,
    pub sub_title_text: String,
    pub sub_title_font_size: i64,
    pub sub_title_font_color: Color,
    pub sub_title_align: Align,
    pub legend_font_size: i64,
    pub legend_font_color: Color,
    pub legend_category: LegendCategory,
    pub x_axis_data: Vec<String>,
    pub x_axis_height: i64,
    pub x_axis_stroke_color: Color,
    pub x_axis_font_size: i64,
    pub x_axis_font_color: Color,
    pub y_axis_width: i64,
    pub y_axis_font_size: i64,
    pub y_axis_font_color: Color,
    pub y_axis_stroke_color: Color,
    pub y_axis_split_number: usize,
    pub y_axis_formatter: Option<String>,
    pub grid_stroke_color: Color,
    pub grid_stroke_width: i64,
    pub series_stroke_width: i64,
    pub series_colors: Vec<Color>,
    pub series_smooth: bool,
    pub series_fill: bool,
}

/// Whether one series fits the renderer's working ranges, against the
/// category-slot count `m`.  With no slots nothing is drawn from the
/// data, so only the name is constrained.
pub open spec fn spec_series_ok(s: Series, m: int) -> bool {
    &&& s.name@.len() <= 1000
    &&& m > 0 ==> {
        &&& s.data@.len() <= m
        &&& forall|j: int|
            0 <= j < s.data@.len() ==> -MAX_VALUE <= #[trigger] s.data@[j] <= MAX_VALUE
    }
}

impl BarChart {
    /// The whole drawing region.
    pub open spec fn spec_root(self) -> Region {
        Region { left: 0, top: 0, width: self.width, height: self.height }
    }

    /// The region inside the configured margin.
    pub open spec fn spec_inner(self) -> Region {
        self.spec_root().spec_child(self.margin)
    }

    /// The height reserved for the title band: the title line and the
    /// subtitle line under it, each only when its text is present.
    pub open spec fn spec_title_height(self) -> int {
        (if self.title_text@.len() == 0 {
            0
        } else {
            self.title_font_size + TITLE_GAP
        }) + (if self.sub_title_text@.len() == 0 {
            0
        } else {
            self.sub_title_font_size + TITLE_GAP
        })
    }

    /// The height reserved for the legend.
    pub open spec fn spec_legend_height(self) -> int {
        if self.series_list@.len() == 0 {
            0
        } else {
            self.legend_font_size + TITLE_GAP
        }
    }

    /// The top offset of the axis area: whichever of title and legend is
    /// taller.
    pub open spec fn spec_top_offset(self) -> int {
        if self.spec_title_height() >= self.spec_legend_height() {
            self.spec_title_height()
        } else {
            self.spec_legend_height()
        }
    }

    /// The height of the axis area.
    pub open spec fn spec_axis_height(self) -> int {
        self.spec_inner().height - self.spec_top_offset() - self.x_axis_height
    }

    /// The width of the axis area.
    pub open spec fn spec_axis_width(self) -> int {
        self.spec_inner().width - self.y_axis_width
    }

    /// The plot region: the axis area, inside the left gutter and under
    /// the title/legend band.
    pub open spec fn spec_plot(self) -> Region {
        self.spec_inner().spec_child(
            MarginBox {
                left: self.y_axis_width,
                top: self.spec_top_offset() as i64,
                right: 0,
                bottom: 0,
            },
        )
    }

    /// The region the vertical axis is drawn in.
    pub open spec fn spec_yregion(self) -> Region {
        self.spec_inner().spec_child(
            MarginBox { left: 0, top: self.spec_top_offset() as i64, right: 0, bottom: 0 },
        )
    }

    /// The region the horizontal axis is drawn in.
    pub open spec fn spec_xregion(self) -> Region {
        self.spec_inner().spec_child(
            MarginBox {
                left: self.y_axis_width,
                top: (self.spec_top_offset() + self.spec_axis_height()) as i64,
                right: 0,
                bottom: 0,
            },
        )
    }

    /// The data values of the first `k` series, joined in order.
    pub open spec fn spec_values_upto(self, k: int) -> Seq<i64>
        decreases k,
    {
        if k <= 0 {
            Seq::<i64>::empty()
        } else {
            self.spec_values_upto(k - 1) + self.series_list@[k - 1].data@
        }
    }

    /// All data values of all series, joined in series order.
    pub open spec fn spec_all_values(self) -> Seq<i64> {
        self.spec_values_upto(self.series_list@.len() as int)
    }

    /// The effective tick-interval count.
    pub open spec fn spec_split(self) -> int {
        spec_axis_split(self.y_axis_split_number as int)
    }

    /// The least tick of the value axis.
    pub open spec fn spec_lo(self) -> int {
        spec_axis_min(self.spec_all_values(), self.spec_split())
    }

    /// The tick spacing of the value axis.
    pub open spec fn spec_step(self) -> int {
        spec_axis_step(self.spec_all_values(), self.spec_split())
    }

    /// The greatest tick of the value axis.
    pub open spec fn spec_hi(self) -> int {
        self.spec_lo() + self.spec_split() * self.spec_step()
    }

    /// The view of the optional tick formatter template.
    pub open spec fn spec_fmt(self) -> Option<Seq<char>> {
        match self.y_axis_formatter {
            Some(f) => Some(f@),
            None => None,
        }
    }

    /// The number of category slots.
    pub open spec fn spec_m(self) -> int {
        self.x_axis_data@.len() as int
    }

    /// The width of one category slot.
    pub open spec fn spec_unit(self) -> int {
        self.spec_axis_width() / self.spec_m()
    }

    /// How many of the first `k` series belong to the bar grouping.
    pub open spec fn spec_bar_count_upto(self, k: int) -> int
        decreases k,
    {
        if k <= 0 {
            0
        } else {
            self.spec_bar_count_upto(k - 1) + if spec_is_bar(self.series_list@[k - 1]) {
                1int
            } else {
                0int
            }
        }
    }

    /// The number of bar-grouped series.
    pub open spec fn spec_bar_count(self) -> int {
        self.spec_bar_count_upto(self.series_list@.len() as int)
    }

    /// The width of one bar: the slot, less the slot margins and the
    /// gaps, split evenly over the bar-grouped series (never below one
    /// tenth).
    pub open spec fn spec_bar_width(self) -> int {
        let k = self.spec_bar_count();
        if k <= 0 {
            0
        } else {
            let room = self.spec_unit() - 2 * BAR_MARGIN - (k - 1) * BAR_GAP;
            if room < k {
                1
            } else {
                room / k
            }
        }
    }

    /// Whether the configuration lies within the renderer's working
    /// ranges; rendering succeeds exactly on such configurations.  The
    /// bounds are the machine limits of the fixed-point model: sizes and
    /// fonts within the drawable range, at most one hundred series with
    /// names of at most a thousand characters (so the legend row stays
    /// within the drawable range), one million tick intervals (so the
    /// tick arithmetic stays within a signed 64-bit count of tenths),
    /// and value lists no longer than the category list (so every slot
    /// position stays within the axis area).
    pub open spec fn spec_valid(self) -> bool {
        &&& 0 < self.width <= 1_000_000
        &&& 0 < self.height <= 1_000_000
        &&& 0 <= self.margin.left <= 1_000_000
        &&& 0 <= self.margin.top <= 1_000_000
        &&& 0 <= self.margin.right <= 1_000_000
        &&& 0 <= self.margin.bottom <= 1_000_000
        &&& 0 <= self.title_font_size <= 10_000
        &&& 0 <= self.sub_title_font_size <= 10_000
        &&& 0 <= self.legend_font_size <= 10_000
        &&& 0 <= self.x_axis_font_size <= 10_000
        &&& 0 <= self.y_axis_font_size <= 10_000
        &&& 0 <= self.x_axis_height <= 1_000_000
        &&& 0 <= self.y_axis_width <= 1_000_000
        &&& 0 <= self.grid_stroke_width <= 10_000
        &&& 0 <= self.series_stroke_width <= 10_000
        &&& 1 <= self.series_colors@.len()
        &&& self.series_list@.len() <= 100
        &&& forall|i: int|
            0 <= i < self.series_list@.len() ==> spec_series_ok(
                #[trigger] self.series_list@[i],
                self.spec_m(),
            )
        &&& self.spec_m() <= 1_000_000_000
        &&& self.y_axis_split_number <= 1_000_000
        &&& forall|i: int|
            0 <= i < self.x_axis_data@.len() ==> (#[trigger] self.x_axis_data@[i])@.len()
                <= 1_000_000
        &&& self.title_text@.len() <= 1_000_000
        &&& self.sub_title_text@.len() <= 1_000_000
        &&& match self.y_axis_formatter {
            Some(f) => f@.len() <= 1_000_000,
            None => true,
        }
        &&& self.margin.left + self.margin.right + self.y_axis_width <= self.width
        &&& self.margin.top + self.margin.bottom + self.spec_top_offset() + self.x_axis_height
            <= self.height
    }

    /// The background fragment: one rectangle filling the whole canvas.
    pub open spec fn spec_bg_frame(self) -> Seq<char> {
        spec_translate_rect(
            Rect {
                color: None,
                fill: Some(self.background_color),
                left: 0,
                top: 0,
                width: self.width,
                height: self.height,
                rx: None,
                ry: None,
            },
            self.spec_root(),
        ).spec_svg()
    }

    /// The title fragments: the aligned title block, then the aligned
    /// subtitle block under it, each only when its text is present.
    pub open spec fn spec_title_frames(self) -> Seq<Seq<char>> {
        (if self.title_text@.len() == 0 {
            Seq::<Seq<char>>::empty()
        } else {
            let w = spec_text_width(self.title_text@, self.title_font_size as int);
            let x = self.spec_inner().left + spec_align_x(
                self.spec_inner().width as int,
                w,
                self.title_align,
            );
            let y = self.spec_inner().top + self.title_font_size;
            seq![
                spec_text_svg(
                    self.title_text@,
                    self.font_family@,
                    self.title_font_size,
                    Some(self.title_font_color),
                    Some(x as i64),
                    Some(y as i64),
                    None,
                    None,
                    spec_opt_view(self.title_font_weight),
                    None,
                ),
            ]
        }) + (if self.sub_title_text@.len() == 0 {
            Seq::<Seq<char>>::empty()
        } else {
            let w = spec_text_width(self.sub_title_text@, self.sub_title_font_size as int);
            let x = self.spec_inner().left + spec_align_x(
                self.spec_inner().width as int,
                w,
                self.sub_title_align,
            );
            let y = self.spec_inner().top + (if self.title_text@.len() == 0 {
                0
            } else {
                self.title_font_size + TITLE_GAP
            }) + self.sub_title_font_size;
            seq![
                spec_text_svg(
                    self.sub_title_text@,
                    self.font_family@,
                    self.sub_title_font_size,
                    Some(self.sub_title_font_color),
                    Some(x as i64),
                    Some(y as i64),
                    None,
                    None,
                    None,
                    None,
                ),
            ]
        })
    }

    /// The left edge of the `i`-th legend entry, after the swatches,
    /// labels and gaps of the entries before it.
    pub open spec fn spec_legend_x(self, i: int) -> int
        decreases i,
    {
        if i <= 0 {
            0
        } else {
            self.spec_legend_x(i - 1) + LEGEND_SWATCH + LEGEND_PAD + spec_text_width(
                self.series_list@[i - 1].name@,
                self.legend_font_size as int,
            ) + LEGEND_SEP
        }
    }

    /// The swatch fragment of the `i`-th legend entry: a filled rectangle
    /// or a stroke, per the configured legend category.
    pub open spec fn spec_swatch_frame(self, i: int) -> Seq<char> {
        let x = self.spec_legend_x(i);
        let color = spec_series_color(self.series_colors@, self.series_list@[i].index, i);
        match self.legend_category {
            LegendCategory::Rect => spec_translate_rect(
                Rect {
                    color: None,
                    fill: Some(color),
                    left: x as i64,
                    top: 0,
                    width: LEGEND_SWATCH,
                    height: self.legend_font_size,
                    rx: None,
                    ry: None,
                },
                self.spec_inner(),
            ).spec_svg(),
            LegendCategory::Normal => spec_translate_line(
                Line {
                    color: Some(color),
                    stroke_width: 20,
                    left: x as i64,
                    top: (self.legend_font_size / 2) as i64,
                    right: (x + LEGEND_SWATCH) as i64,
                    bottom: (self.legend_font_size / 2) as i64,
                },
                self.spec_inner(),
            ).spec_svg(),
        }
    }

    /// The label fragment of the `i`-th legend entry.
    pub open spec fn spec_legend_text_frame(self, i: int) -> Seq<char> {
        let x = self.spec_legend_x(i) + LEGEND_SWATCH + LEGEND_PAD;
        spec_text_svg(
            self.series_list@[i].name@,
            self.font_family@,
            self.legend_font_size,
            Some(self.legend_font_color),
            Some((self.spec_inner().left + x) as i64),
            Some((self.spec_inner().top + self.legend_font_size) as i64),
            None,
            None,
            None,
            None,
        )
    }

    /// The legend fragments of the first `k` series: a swatch and a label
    /// per entry.
    pub open spec fn spec_legend_frames(self, k: int) -> Seq<Seq<char>>
        decreases k,
    {
        if k <= 0 {
            Seq::<Seq<char>>::empty()
        } else {
            self.spec_legend_frames(k - 1) + seq![
                self.spec_swatch_frame(k - 1),
                self.spec_legend_text_frame(k - 1),
            ]
        }
    }

    /// The grid fragment: one horizontal gridline per tick interval, the
    /// bottom one hidden under the category axis.
    pub open spec fn spec_grid_frame(self) -> Seq<char> {
        spec_grid_svg(
            GridParams {
                left: self.spec_plot().left,
                top: self.spec_plot().top,
                right: (self.spec_plot().left + self.spec_axis_width()) as i64,
                bottom: (self.spec_plot().top + self.spec_axis_height()) as i64,
                color: Some(self.grid_stroke_color),
                stroke_width: self.grid_stroke_width,
                verticals: 0,
                hidden_verticals: Seq::<usize>::empty(),
                horizontals: self.spec_split() as usize,
                hidden_horizontals: seq![self.spec_split() as usize],
            },
        )
    }

    /// The vertical axis line fragment.
    pub open spec fn spec_yaxis_line_frame(self) -> Seq<char> {
        spec_translate_line(
            Line {
                color: Some(self.y_axis_stroke_color),
                stroke_width: AXIS_STROKE_WIDTH,
                left: self.y_axis_width,
                top: 0,
                right: self.y_axis_width,
                bottom: self.spec_axis_height() as i64,
            },
            self.spec_yregion(),
        ).spec_svg()
    }

    /// The `i`-th tick label fragment of the value axis, top-down: the
    /// topmost label carries the greatest tick.
    pub open spec fn spec_ylabel_frame(self, i: int) -> Seq<char> {
        let text = spec_axis_label(
            self.spec_fmt(),
            self.spec_lo() + (self.spec_split() - i) * self.spec_step(),
        );
        let ly = self.spec_axis_height() * i / self.spec_split() + (self.y_axis_font_size * 2)
            / 5;
        spec_text_svg(
            text,
            self.font_family@,
            self.y_axis_font_size,
            Some(self.y_axis_font_color),
            Some(self.spec_yregion().left),
            Some((ly + self.spec_yregion().top) as i64),
            None,
            None,
            None,
            None,
        )
    }

    /// The first `k` tick label fragments of the value axis.
    pub open spec fn spec_ylabels(self, k: int) -> Seq<Seq<char>>
        decreases k,
    {
        if k <= 0 {
            Seq::<Seq<char>>::empty()
        } else {
            self.spec_ylabels(k - 1) + seq![self.spec_ylabel_frame(k - 1)]
        }
    }

    /// The category axis line fragment.
    pub open spec fn spec_xaxis_line_frame(self) -> Seq<char> {
        spec_translate_line(
            Line {
                color: Some(self.x_axis_stroke_color),
                stroke_width: AXIS_STROKE_WIDTH,
                left: 0,
                top: 0,
                right: self.spec_axis_width() as i64,
                bottom: 0,
            },
            self.spec_xregion(),
        ).spec_svg()
    }

    /// The `j`-th category label fragment, centered in its slot.
    pub open spec fn spec_xlabel_frame(self, j: int) -> Seq<char> {
        let w = spec_text_width(self.x_axis_data@[j]@, self.x_axis_font_size as int);
        let x = self.spec_unit() * j + spec_align_x(self.spec_unit(), w, Align::Center);
        let y = self.x_axis_font_size + LABEL_GAP;
        spec_text_svg(
            self.x_axis_data@[j]@,
            self.font_family@,
            self.x_axis_font_size,
            Some(self.x_axis_font_color),
            Some((self.spec_xregion().left + x) as i64),
            Some((self.spec_xregion().top + y) as i64),
            None,
            None,
            None,
            None,
        )
    }

    /// The first `k` category label fragments.
    pub open spec fn spec_xlabels(self, k: int) -> Seq<Seq<char>>
        decreases k,
    {
        if k <= 0 {
            Seq::<Seq<char>>::empty()
        } else {
            self.spec_xlabels(k - 1) + seq![self.spec_xlabel_frame(k - 1)]
        }
    }

    /// The pixel height of a (clamped) data value over the axis floor.
    pub open spec fn spec_value_offset(self, v: int) -> int {
        spec_offset(
            self.spec_lo(),
            self.spec_hi(),
            spec_clamp(v, self.spec_lo(), self.spec_hi()),
            self.spec_axis_height(),
        )
    }

    /// The rectangle fragment of value `j` of bar-grouped series `s`.
    pub open spec fn spec_bar_rect_frame(self, s: int, j: int) -> Seq<char> {
        let pos = self.spec_bar_count_upto(s);
        let off = self.spec_value_offset(self.series_list@[s].data@[j] as int);
        let left = self.spec_unit() * j + BAR_MARGIN + pos * (self.spec_bar_width() + BAR_GAP);
        spec_translate_rect(
            Rect {
                color: None,
                fill: Some(
                    spec_series_color(self.series_colors@, self.series_list@[s].index, s),
                ),
                left: left as i64,
                top: (self.spec_axis_height() - off) as i64,
                width: self.spec_bar_width() as i64,
                height: off as i64,
                rx: None,
                ry: None,
            },
            self.spec_plot(),
        ).spec_svg()
    }

    /// The first `k` rectangle fragments of bar-grouped series `s`.
    pub open spec fn spec_bar_series_frames(self, s: int, k: int) -> Seq<Seq<char>>
        decreases k,
    {
        if k <= 0 {
            Seq::<Seq<char>>::empty()
        } else {
            self.spec_bar_series_frames(s, k - 1) + seq![self.spec_bar_rect_frame(s, k - 1)]
        }
    }

    /// The bar fragments of the first `k` series: one rectangle per value
    /// of every bar-grouped series, in series order.
    pub open spec fn spec_bars_upto(self, k: int) -> Seq<Seq<char>>
        decreases k,
    {
        if k <= 0 {
            Seq::<Seq<char>>::empty()
        } else {
            self.spec_bars_upto(k - 1) + if spec_is_bar(self.series_list@[k - 1]) {
                self.spec_bar_series_frames(k - 1, self.series_list@[k - 1].data@.len() as int)
            } else {
                Seq::<Seq<char>>::empty()
            }
        }
    }

    /// The trace points of line-category series `s`, one per value, each
    /// centered in its category slot.
    pub open spec fn spec_line_points(self, s: int) -> Seq<Point> {
        Seq::new(
            self.series_list@[s].data@.len(),
            |j: int|
                Point {
                    x: (self.spec_unit() * j + self.spec_unit() / 2) as i64,
                    y: (self.spec_axis_height() - self.spec_value_offset(
                        self.series_list@[s].data@[j] as int,
                    )) as i64,
                },
        )
    }

    /// The stroke fragment of line-category series `s`.
    pub open spec fn spec_line_frame(self, s: int) -> Seq<char> {
        let color = spec_series_color(self.series_colors@, self.series_list@[s].index, s);
        let pts = spec_translate_points(self.spec_line_points(s), self.spec_plot());
        if self.series_smooth {
            spec_smooth_line_svg(Some(color), self.series_stroke_width, pts)
        } else {
            spec_straight_line_svg(Some(color), self.series_stroke_width, pts)
        }
    }

    /// The area-fill fragment of line-category series `s`: the trace
    /// closed down to the axis floor, at one fifth opacity.
    pub open spec fn spec_line_fill_frame(self, s: int) -> Seq<char> {
        let color = spec_series_color(self.series_colors@, self.series_list@[s].index, s);
        let pts = spec_translate_points(self.spec_line_points(s), self.spec_plot());
        spec_straight_line_fill_svg(
            Color { a: 51, ..color },
            pts,
            (self.spec_axis_height() as i64 + self.spec_plot().top) as i64,
        )
    }

    /// The line fragments of the first `k` series: per line-category
    /// series its optional area fill, then its stroke.
    pub open spec fn spec_lines_upto(self, k: int) -> Seq<Seq<char>>
        decreases k,
    {
        if k <= 0 {
            Seq::<Seq<char>>::empty()
        } else {
            self.spec_lines_upto(k - 1) + if !spec_is_bar(self.series_list@[k - 1]) {
                if self.series_fill {
                    seq![self.spec_line_fill_frame(k - 1), self.spec_line_frame(k - 1)]
                } else {
                    seq![self.spec_line_frame(k - 1)]
                }
            } else {
                Seq::<Seq<char>>::empty()
            }
        }
    }

    /// Every fragment of the render, in emission order.  With no category
    /// slots only the minimal document remains: background, title and
    /// legend.
    pub open spec fn spec_frames(self) -> Seq<Seq<char>> {
        let n = self.series_list@.len() as int;
        let head = seq![self.spec_bg_frame()] + self.spec_title_frames()
            + self.spec_legend_frames(n);
        if self.spec_m() == 0 {
            head
        } else {
            head + seq![self.spec_grid_frame(), self.spec_yaxis_line_frame()]
                + self.spec_ylabels(self.spec_split() + 1) + seq![self.spec_xaxis_line_frame()]
                + self.spec_xlabels(self.spec_m()) + self.spec_bars_upto(n)
                + self.spec_lines_upto(n)
        }
    }

    /// The whole rendered document.
    pub open spec fn spec_svg(self) -> Seq<char> {
        spec_canvas_svg(self.width as int, self.height as int, self.spec_frames())
    }

    /// Whether the configuration lies within the renderer's working
    /// ranges.
    pub fn validate(&self) -> (b: bool)
        ensures
            b == self.spec_valid(),
    {
        let basic = 0 < self.width && self.width <= 1_000_000 && 0 < self.height && self.height
            <= 1_000_000 && 0 <= self.margin.left && self.margin.left <= 1_000_000 && 0
            <= self.margin.top && self.margin.top <= 1_000_000 && 0 <= self.margin.right
            && self.margin.right <= 1_000_000 && 0 <= self.margin.bottom && self.margin.bottom
            <= 1_000_000 && 0 <= self.title_font_size && self.title_font_size <= 10_000 && 0
            <= self.sub_title_font_size && self.sub_title_font_size <= 10_000 && 0
            <= self.legend_font_size && self.legend_font_size <= 10_000 && 0
            <= self.x_axis_font_size && self.x_axis_font_size <= 10_000 && 0
            <= self.y_axis_font_size && self.y_axis_font_size <= 10_000 && 0
            <= self.x_axis_height && self.x_axis_height <= 1_000_000 && 0 <= self.y_axis_width
            && self.y_axis_width <= 1_000_000 && 0 <= self.grid_stroke_width
            && self.grid_stroke_width <= 10_000 && 0 <= self.series_stroke_width
            && self.series_stroke_width <= 10_000 && 1 <= self.series_colors.len()
            && self.series_list.len() <= 100 && self.x_axis_data.len() <= 1_000_000_000
            && self.y_axis_split_number <= 1_000_000;
        if !basic {
            return false;
        }
        let m = self.x_axis_data.len();
        let mut i: usize = 0;
        while i < self.series_list.len()
            invariant
                i <= self.series_list@.len(),
                m == self.x_axis_data@.len(),
                forall|k: int|
                    0 <= k < i ==> spec_series_ok(#[trigger] self.series_list@[k], m as int),
            decreases self.series_list@.len() - i,
        {
            let s = &self.series_list[i];
            if s.name.as_str().unicode_len() > 1000 {
                return false;
            }
            if m > 0 {
                if s.data.len() > m {
                    return false;
                }
                let mut j: usize = 0;
                while j < s.data.len()
                    invariant
                        j <= s.data@.len(),
                        0 <= i < self.series_list@.len(),
                        s == self.series_list@[i as int],
                        0 < m == self.x_axis_data@.len(),
                        forall|q: int|
                            0 <= q < j ==> -MAX_VALUE <= #[trigger] s.data@[q] <= MAX_VALUE,
                    decreases s.data@.len() - j,
                {
                    let v = s.data[j];
                    if v < -MAX_VALUE || v > MAX_VALUE {
                        proof {
                            assert(!spec_series_ok(self.series_list@[i as int], m as int));
                        }
                        return false;
                    }
                    j = j + 1;
                }
            }
            i = i + 1;
        }
        let mut i: usize = 0;
        while i < m
            invariant
                i <= m,
                m == self.x_axis_data@.len(),
                forall|k: int|
                    0 <= k < i ==> (#[trigger] self.x_axis_data@[k])@.len() <= 1_000_000,
            decreases m - i,
        {
            if self.x_axis_data[i].as_str().unicode_len() > 1_000_000 {
                return false;
            }
            i = i + 1;
        }
        if self.title_text.as_str().unicode_len() > 1_000_000 {
            return false;
        }
        if self.sub_title_text.as_str().unicode_len() > 1_000_000 {
            return false;
        }
        match &self.y_axis_formatter {
            Some(f) => {
                if f.as_str().unicode_len() > 1_000_000 {
                    return false;
                }
            },
            None => {},
        }
        if self.margin.left + self.margin.right + self.y_axis_width > self.width {
            return false;
        }
        let title_h: i64 = self.title_band_height();
        let legend_h: i64 = if self.series_list.len() == 0 {
            0
        } else {
            self.legend_font_size + TITLE_GAP
        };
        let top_off: i64 = if title_h >= legend_h {
            title_h
        } else {
            legend_h
        };
        if self.margin.top + self.margin.bottom + top_off + self.x_axis_height > self.height {
            return false;
        }
        true
    }

    /// The height of the title band.
    fn title_band_height(&self) -> (h: i64)
        requires
            0 <= self.title_font_size <= 10_000,
            0 <= self.sub_title_font_size <= 10_000,
        ensures
            h as int == self.spec_title_height(),
            0 <= h <= 20_100,
    {
        let t: i64 = if self.title_text.as_str().is_empty() {
            0
        } else {
            self.title_font_size + TITLE_GAP
        };
        let s: i64 = if self.sub_title_text.as_str().is_empty() {
            0
        } else {
            self.sub_title_font_size + TITLE_GAP
        };
        t + s
    }

    /// All series data values, joined in series order.
    fn collect_values(&self) -> (values: Vec<i64>)
        requires
            self.spec_valid(),
            1 <= self.spec_m(),
        ensures
            values@ == self.spec_all_values(),
            forall|q: int|
                0 <= q < values@.len() ==> -MAX_VALUE <= #[trigger] values@[q] <= MAX_VALUE,
    {
        let n = self.series_list.len();
        let mut values: Vec<i64> = Vec::new();
        let mut vi: usize = 0;
        while vi < n
            invariant
                vi <= n,
                n == self.series_list@.len(),
                self.spec_valid(),
                1 <= self.spec_m(),
                values@ == self.spec_values_upto(vi as int),
                forall|q: int|
                    0 <= q < values@.len() ==> -MAX_VALUE <= #[trigger] values@[q] <= MAX_VALUE,
            decreases n - vi,
        {
            let s = &self.series_list[vi];
            let mut j: usize = 0;
            while j < s.data.len()
                invariant
                    j <= s.data@.len(),
                    0 <= vi < self.series_list@.len(),
                    s == self.series_list@[vi as int],
                    self.spec_valid(),
                    1 <= self.spec_m(),
                    values@ == self.spec_values_upto(vi as int) + s.data@.take(j as int),
                    forall|q: int|
                        0 <= q < values@.len() ==> -MAX_VALUE <= #[trigger] values@[q]
                            <= MAX_VALUE,
                decreases s.data@.len() - j,
            {
                values.push(s.data[j]);
                proof {
                    assert(spec_series_ok(self.series_list@[vi as int], self.spec_m()));
                    assert(values@ =~= self.spec_values_upto(vi as int) + s.data@.take(
                        j + 1 as int,
                    ));
                }
                j = j + 1;
            }
            proof {
                assert(s.data@.take(s.data@.len() as int) =~= s.data@);
                assert(values@ =~= self.spec_values_upto(vi + 1 as int));
            }
            vi = vi + 1;
        }
        values
    }

    /// Emits the title band: the aligned title, then the aligned
    /// subtitle under it, each only when its text is present.
    fn render_title(&self, c: &mut Canvas, inner: Region)
        requires
            self.spec_valid(),
            inner == self.spec_inner(),
            old(c).width == self.width,
            old(c).height == self.height,
        ensures
            final(c).width == old(c).width,
            final(c).height == old(c).height,
            final(c).frames() == old(c).frames() + self.spec_title_frames(),
    {
        if !self.title_text.as_str().is_empty() {
            let w = measure_text_width(self.title_text.as_str(), self.title_font_size);
            let x = align_x(inner.width, w, self.title_align);
            let t = Text {
                text: self.title_text.clone(),
                font_family: self.font_family.clone(),
                font_size: self.title_font_size,
                fill: Some(self.title_font_color),
                x: Some(x),
                y: Some(self.title_font_size),
                dx: None,
                dy: None,
                font_weight: self.title_font_weight.clone(),
                transform: None,
            };
            c.text(inner, t);
        }
        if !self.sub_title_text.as_str().is_empty() {
            let w = measure_text_width(self.sub_title_text.as_str(), self.sub_title_font_size);
            let x = align_x(inner.width, w, self.sub_title_align);
            let above: i64 = if self.title_text.as_str().is_empty() {
                0
            } else {
                self.title_font_size + TITLE_GAP
            };
            let t = Text {
                text: self.sub_title_text.clone(),
                font_family: self.font_family.clone(),
                font_size: self.sub_title_font_size,
                fill: Some(self.sub_title_font_color),
                x: Some(x),
                y: Some(above + self.sub_title_font_size),
                dx: None,
                dy: None,
                font_weight: None,
                transform: None,
            };
            c.text(inner, t);
        }
        proof {
            assert(c.frames() =~= old(c).frames() + self.spec_title_frames());
        }
    }

    /// Emits the legend: one swatch and one label per series.
    #[verifier::rlimit(80)]
    fn render_legend(&self, c: &mut Canvas, inner: Region)
        requires
            self.spec_valid(),
            inner == self.spec_inner(),
            old(c).width == self.width,
            old(c).height == self.height,
        ensures
            final(c).width == old(c).width,
            final(c).height == old(c).height,
            final(c).frames() == old(c).frames() + self.spec_legend_frames(
                self.series_list@.len() as int,
            ),
    {
        let n = self.series_list.len();
        let mut lx: i64 = 0;
        let mut si: usize = 0;
        while si < n
            invariant
                si <= n,
                n == self.series_list@.len(),
                self.spec_valid(),
                inner == self.spec_inner(),
                c.width == self.width,
                c.height == self.height,
                lx == self.spec_legend_x(si as int),
                0 <= lx <= si * 6_040_000,
                c.frames() == old(c).frames() + self.spec_legend_frames(si as int),
            decreases n - si,
        {
            let s = &self.series_list[si];
            let color = series_color(&self.series_colors, &s.index, si);
            match self.legend_category {
                LegendCategory::Rect => {
                    c.rect(
                        inner,
                        Rect {
                            color: None,
                            fill: Some(color),
                            left: lx,
                            top: 0,
                            width: LEGEND_SWATCH,
                            height: self.legend_font_size,
                            rx: None,
                            ry: None,
                        },
                    );
                },
                LegendCategory::Normal => {
                    let mid = div_nn(self.legend_font_size, 2);
                    c.line(
                        inner,
                        Line {
                            color: Some(color),
                            stroke_width: 20,
                            left: lx,
                            top: mid,
                            right: lx + LEGEND_SWATCH,
                            bottom: mid,
                        },
                    );
                },
            }
            proof {
                assert(spec_series_ok(self.series_list@[si as int], self.spec_m()));
                assert(spec_text_width(s.name@, self.legend_font_size as int) <= 6_000_000)
                    by (nonlinear_arith)
                    requires
                        s.name@.len() <= 1000,
                        0 <= self.legend_font_size <= 10_000,
                ;
            }
            let w = measure_text_width(s.name.as_str(), self.legend_font_size);
            let t = Text {
                text: s.name.clone(),
                font_family: self.font_family.clone(),
                font_size: self.legend_font_size,
                fill: Some(self.legend_font_color),
                x: Some(lx + LEGEND_SWATCH + LEGEND_PAD),
                y: Some(self.legend_font_size),
                dx: None,
                dy: None,
                font_weight: None,
                transform: None,
            };
            c.text(inner, t);
            proof {
                assert(c.frames() =~= old(c).frames() + self.spec_legend_frames(si + 1 as int));
            }
            lx = lx + LEGEND_SWATCH + LEGEND_PAD + w + LEGEND_SEP;
            si = si + 1;
        }
    }

    /// One owned tick label out of computed axis values.
    fn clone_label(&self, av: &AxisValues, idx: usize) -> (s: String)
        requires
            idx < av.data@.len(),
        ensures
            s@ == av.data@[idx as int]@,
    {
        av.data[idx].clone()
    }

    /// Emits the value-axis tick labels, top-down.
    fn render_ylabels(&self, c: &mut Canvas, yregion: Region, av: &AxisValues, ah: i64, split: usize)
        requires
            self.spec_valid(),
            yregion == self.spec_yregion(),
            old(c).width == self.width,
            old(c).height == self.height,
            split as int == self.spec_split(),
            ah as int == self.spec_axis_height(),
            0 <= ah <= 1_000_000,
            av.data@.len() == split + 1,
            forall|q: int|
                0 <= q < av.data@.len() ==> (#[trigger] av.data@[q])@ == spec_axis_label(
                    self.spec_fmt(),
                    self.spec_lo() + q * self.spec_step(),
                ),
        ensures
            final(c).width == old(c).width,
            final(c).height == old(c).height,
            final(c).frames() == old(c).frames() + self.spec_ylabels(self.spec_split() + 1),
    {
        let split_i: i64 = split as i64;
        let mut i: usize = 0;
        while i <= split
            invariant
                i <= split + 1,
                self.spec_valid(),
                yregion == self.spec_yregion(),
                c.width == self.width,
                c.height == self.height,
                split_i == split,
                split as int == self.spec_split(),
                1 <= split <= 1_000_000,
                ah as int == self.spec_axis_height(),
                0 <= ah <= 1_000_000,
                av.data@.len() == split + 1,
                forall|q: int|
                    0 <= q < av.data@.len() ==> (#[trigger] av.data@[q])@ == spec_axis_label(
                        self.spec_fmt(),
                        self.spec_lo() + q * self.spec_step(),
                    ),
                c.frames() == old(c).frames() + self.spec_ylabels(i as int),
            decreases split + 1 - i,
        {
            let label = self.clone_label(av, split - i);
            proof {
                assert(0 <= ah * (i as int) <= 1_000_001_000_000) by (nonlinear_arith)
                    requires
                        0 <= ah <= 1_000_000,
                        0 <= i <= 1_000_001,
                ;
            }
            let num = ah * (i as i64);
            proof {
                assert((ah as int) * (i as int) / (split as int) <= ah) by (nonlinear_arith)
                    requires
                        0 <= (i as int) <= split as int,
                        1 <= split as int,
                        0 <= ah,
                ;
            }
            let ly = div_nn(num, split_i) + div_nn(self.y_axis_font_size * 2, 5);
            let t = Text {
                text: label,
                font_family: self.font_family.clone(),
                font_size: self.y_axis_font_size,
                fill: Some(self.y_axis_font_color),
                x: Some(0),
                y: Some(ly),
                dx: None,
                dy: None,
                font_weight: None,
                transform: None,
            };
            c.text(yregion, t);
            proof {
                assert(c.frames() =~= old(c).frames() + self.spec_ylabels(i + 1 as int));
            }
            i = i + 1;
        }
    }

    /// Emits the category labels, one centered in each slot.
    fn render_xlabels(&self, c: &mut Canvas, xregion: Region, unit: i64, aw: i64)
        requires
            self.spec_valid(),
            1 <= self.spec_m(),
            xregion == self.spec_xregion(),
            old(c).width == self.width,
            old(c).height == self.height,
            unit as int == self.spec_unit(),
            0 <= unit <= 1_000_000,
            aw as int == self.spec_axis_width(),
            0 <= aw <= 1_000_000,
        ensures
            final(c).width == old(c).width,
            final(c).height == old(c).height,
            final(c).frames() == old(c).frames() + self.spec_xlabels(self.spec_m()),
    {
        let m = self.x_axis_data.len();
        let mut j: usize = 0;
        while j < m
            invariant
                j <= m,
                m == self.x_axis_data@.len(),
                1 <= m,
                self.spec_valid(),
                xregion == self.spec_xregion(),
                c.width == self.width,
                c.height == self.height,
                unit as int == self.spec_unit(),
                0 <= unit <= 1_000_000,
                aw as int == self.spec_axis_width(),
                0 <= aw <= 1_000_000,
                c.frames() == old(c).frames() + self.spec_xlabels(j as int),
            decreases m - j,
        {
            let w = measure_text_width(self.x_axis_data[j].as_str(), self.x_axis_font_size);
            proof {
                assert(0 <= unit * (j as int) <= aw) by (nonlinear_arith)
                    requires
                        0 <= (j as int) < m as int,
                        1 <= m as int,
                        0 <= aw,
                        unit == aw as int / m as int,
                ;
            }
            let x = unit * (j as i64) + align_x(unit, w, Align::Center);
            let t = Text {
                text: self.x_axis_data[j].clone(),
                font_family: self.font_family.clone(),
                font_size: self.x_axis_font_size,
                fill: Some(self.x_axis_font_color),
                x: Some(x),
                y: Some(self.x_axis_font_size + LABEL_GAP),
                dx: None,
                dy: None,
                font_weight: None,
                transform: None,
            };
            c.text(xregion, t);
            proof {
                assert(c.frames() =~= old(c).frames() + self.spec_xlabels(j + 1 as int));
            }
            j = j + 1;
        }
    }

    /// Emits the bar rectangles of every bar-grouped series.
    #[verifier::rlimit(60)]
    fn render_bars(&self, c: &mut Canvas, plot: Region, av: &AxisValues, unit: i64, bw: i64, ah: i64, aw: i64)
        requires
            self.spec_valid(),
            1 <= self.spec_m(),
            plot == self.spec_plot(),
            old(c).width == self.width,
            old(c).height == self.height,
            unit as int == self.spec_unit(),
            0 <= unit <= 1_000_000,
            aw as int == self.spec_axis_width(),
            0 <= aw <= 1_000_000,
            bw as int == self.spec_bar_width(),
            0 <= bw <= 1_000_000,
            ah as int == self.spec_axis_height(),
            0 <= ah <= 1_000_000,
            av.bounded(),
            av.min as int == self.spec_lo(),
            av.max as int == self.spec_hi(),
        ensures
            final(c).width == old(c).width,
            final(c).height == old(c).height,
            final(c).frames() == old(c).frames() + self.spec_bars_upto(
                self.series_list@.len() as int,
            ),
    {
        let n = self.series_list.len();
        let mut pos: i64 = 0;
        let mut si: usize = 0;
        while si < n
            invariant
                si <= n,
                n == self.series_list@.len(),
                self.spec_valid(),
                1 <= self.spec_m(),
                plot == self.spec_plot(),
                c.width == self.width,
                c.height == self.height,
                unit as int == self.spec_unit(),
                0 <= unit <= 1_000_000,
                aw as int == self.spec_axis_width(),
                0 <= aw <= 1_000_000,
                bw as int == self.spec_bar_width(),
                0 <= bw <= 1_000_000,
                ah as int == self.spec_axis_height(),
                0 <= ah <= 1_000_000,
                av.bounded(),
                av.min as int == self.spec_lo(),
                av.max as int == self.spec_hi(),
                pos == self.spec_bar_count_upto(si as int),
                0 <= pos <= si,
                c.frames() == old(c).frames() + self.spec_bars_upto(si as int),
            decreases n - si,
        {
            let s = &self.series_list[si];
            let is_bar = match s.category {
                Some(SeriesCategory::Line) => false,
                _ => true,
            };
            if is_bar {
                let color = series_color(&self.series_colors, &s.index, si);
                let dlen = s.data.len();
                proof {
                    assert(spec_series_ok(self.series_list@[si as int], self.spec_m()));
                }
                let mut j: usize = 0;
                while j < dlen
                    invariant
                        j <= dlen,
                        dlen == s.data@.len(),
                        0 <= si < self.series_list@.len(),
                        s == self.series_list@[si as int],
                        spec_is_bar(*s),
                        dlen as int <= self.spec_m(),
                        1 <= self.spec_m(),
                        self.spec_valid(),
                        plot == self.spec_plot(),
                        c.width == self.width,
                        c.height == self.height,
                        unit as int == self.spec_unit(),
                        0 <= unit <= 1_000_000,
                        aw as int == self.spec_axis_width(),
                        0 <= aw <= 1_000_000,
                        bw as int == self.spec_bar_width(),
                        0 <= bw <= 1_000_000,
                        ah as int == self.spec_axis_height(),
                        0 <= ah <= 1_000_000,
                        av.bounded(),
                        av.min as int == self.spec_lo(),
                        av.max as int == self.spec_hi(),
                        pos == self.spec_bar_count_upto(si as int),
                        0 <= pos <= si,
                        color == spec_series_color(self.series_colors@, s.index, si as int),
                        c.frames() == old(c).frames() + self.spec_bars_upto(si as int)
                            + self.spec_bar_series_frames(si as int, j as int),
                    decreases dlen - j,
                {
                    let v = s.data[j];
                    let vc = if v < av.min {
                        av.min
                    } else if v > av.max {
                        av.max
                    } else {
                        v
                    };
                    let off = av.offset(vc, ah);
                    proof {
                        assert(0 <= unit * (j as int) <= aw) by (nonlinear_arith)
                            requires
                                0 <= (j as int) < self.spec_m(),
                                1 <= self.spec_m(),
                                0 <= aw,
                                unit == aw as int / self.spec_m(),
                        ;
                        assert(0 <= pos * (bw + BAR_GAP) <= 100 * 1_000_030)
                            by (nonlinear_arith)
                            requires
                                0 <= pos <= 100,
                                0 <= bw <= 1_000_000,
                        ;
                    }
                    let left = unit * (j as i64) + BAR_MARGIN + pos * (bw + BAR_GAP);
                    c.rect(
                        plot,
                        Rect {
                            color: None,
                            fill: Some(color),
                            left,
                            top: ah - off,
                            width: bw,
                            height: off,
                            rx: None,
                            ry: None,
                        },
                    );
                    proof {
                        assert(c.frames() =~= old(c).frames() + self.spec_bars_upto(si as int)
                            + self.spec_bar_series_frames(si as int, j + 1 as int));
                    }
                    j = j + 1;
                }
                pos = pos + 1;
            }
            proof {
                assert(c.frames() =~= old(c).frames() + self.spec_bars_upto(si + 1 as int));
            }
            si = si + 1;
        }
    }

    /// Emits the line traces (and optional area fills) of every
    /// line-category series.
    #[verifier::rlimit(60)]
    fn render_lines(&self, c: &mut Canvas, plot: Region, av: &AxisValues, unit: i64, ah: i64, aw: i64)
        requires
            self.spec_valid(),
            1 <= self.spec_m(),
            plot == self.spec_plot(),
            old(c).width == self.width,
            old(c).height == self.height,
            unit as int == self.spec_unit(),
            0 <= unit <= 1_000_000,
            aw as int == self.spec_axis_width(),
            0 <= aw <= 1_000_000,
            ah as int == self.spec_axis_height(),
            0 <= ah <= 1_000_000,
            av.bounded(),
            av.min as int == self.spec_lo(),
            av.max as int == self.spec_hi(),
        ensures
            final(c).width == old(c).width,
            final(c).height == old(c).height,
            final(c).frames() == old(c).frames() + self.spec_lines_upto(
                self.series_list@.len() as int,
            ),
    {
        let n = self.series_list.len();
        let half_unit = div_nn(unit, 2);
        let mut si: usize = 0;
        while si < n
            invariant
                si <= n,
                n == self.series_list@.len(),
                self.spec_valid(),
                1 <= self.spec_m(),
                plot == self.spec_plot(),
                c.width == self.width,
                c.height == self.height,
                unit as int == self.spec_unit(),
                0 <= unit <= 1_000_000,
                half_unit == self.spec_unit() / 2,
                0 <= half_unit <= 1_000_000,
                aw as int == self.spec_axis_width(),
                0 <= aw <= 1_000_000,
                ah as int == self.spec_axis_height(),
                0 <= ah <= 1_000_000,
                av.bounded(),
                av.min as int == self.spec_lo(),
                av.max as int == self.spec_hi(),
                c.frames() == old(c).frames() + self.spec_lines_upto(si as int),
            decreases n - si,
        {
            let s = &self.series_list[si];
            let is_line = match s.category {
                Some(SeriesCategory::Line) => true,
                _ => false,
            };
            if is_line {
                let color = series_color(&self.series_colors, &s.index, si);
                let dlen = s.data.len();
                proof {
                    assert(spec_series_ok(self.series_list@[si as int], self.spec_m()));
                }
                let mut pts: Vec<Point> = Vec::new();
                let mut j: usize = 0;
                while j < dlen
                    invariant
                        j <= dlen,
                        dlen == s.data@.len(),
                        0 <= si < self.series_list@.len(),
                        s == self.series_list@[si as int],
                        dlen as int <= self.spec_m(),
                        1 <= self.spec_m(),
                        self.spec_valid(),
                        unit as int == self.spec_unit(),
                        0 <= unit <= 1_000_000,
                        half_unit == self.spec_unit() / 2,
                        0 <= half_unit <= 1_000_000,
                        aw as int == self.spec_axis_width(),
                        0 <= aw <= 1_000_000,
                        ah as int == self.spec_axis_height(),
                        0 <= ah <= 1_000_000,
                        av.bounded(),
                        av.min as int == self.spec_lo(),
                        av.max as int == self.spec_hi(),
                        pts@ == self.spec_line_points(si as int).take(j as int),
                        forall|q: int|
                            0 <= q < pts@.len() ==> 0 <= (#[trigger] pts@[q]).x <= 2_000_000 && 0
                                <= pts@[q].y <= 1_000_000,
                    decreases dlen - j,
                {
                    let v = s.data[j];
                    let vc = if v < av.min {
                        av.min
                    } else if v > av.max {
                        av.max
                    } else {
                        v
                    };
                    let off = av.offset(vc, ah);
                    proof {
                        assert(0 <= unit * (j as int) <= aw) by (nonlinear_arith)
                            requires
                                0 <= (j as int) < self.spec_m(),
                                1 <= self.spec_m(),
                                0 <= aw,
                                unit == aw as int / self.spec_m(),
                        ;
                    }
                    let p = Point { x: unit * (j as i64) + half_unit, y: ah - off };
                    pts.push(p);
                    proof {
                        assert(pts@ =~= self.spec_line_points(si as int).take(j + 1 as int));
                    }
                    j = j + 1;
                }
                proof {
                    assert(pts@ =~= self.spec_line_points(si as int));
                    assert(spec_points_bounded(pts@));
                    assert forall|q: int|
                        0 <= q < spec_translate_points(pts@, plot).len() implies (
                    #[trigger] spec_translate_points(pts@, plot)[q]).bounded() by {
                        assert(spec_translate_points(pts@, plot)[q] == crate::canvas::spec_translate_point(
                            pts@[q],
                            plot,
                        ));
                        assert(0 <= pts@[q].x <= 2_000_000 && 0 <= pts@[q].y <= 1_000_000);
                    }
                }
                if self.series_fill {
                    let fill_pts = copy_points(&pts);
                    c.straight_line_fill(
                        plot,
                        crate::component::StraightLineFill {
                            fill: Color { r: color.r, g: color.g, b: color.b, a: 51 },
                            points: fill_pts,
                            bottom: ah,
                        },
                    );
                    proof {
                        assert(Color { r: color.r, g: color.g, b: color.b, a: 51 } == (Color {
                            a: 51,
                            ..color
                        }));
                    }
                }
                if self.series_smooth {
                    c.smooth_line(
                        plot,
                        crate::component::SmoothLine {
                            color: Some(color),
                            stroke_width: self.series_stroke_width,
                            points: pts,
                        },
                    );
                } else {
                    c.straight_line(
                        plot,
                        crate::component::StraightLine {
                            color: Some(color),
                            stroke_width: self.series_stroke_width,
                            points: pts,
                        },
                    );
                }
            }
            proof {
                assert(c.frames() =~= old(c).frames() + self.spec_lines_upto(si + 1 as int));
            }
            si = si + 1;
        }
    }

    /// Renders the chart into one document string.  Succeeds exactly on
    /// configurations within the renderer's working ranges; any other
    /// configuration yields the structured error and no partial output.
    #[verifier::rlimit(100)]
    pub fn svg(&self) -> (r: Result<String, RenderError>)
        ensures
            self.spec_valid() ==> r is Ok && r.unwrap()@ == self.spec_svg(),
            !self.spec_valid() ==> r == Err::<String, RenderError>(RenderError::InvalidConfig),
    {
        if !self.validate() {
            return Err(RenderError::InvalidConfig);
        }
        let ghost n_g = self.series_list@.len() as int;
        let mut c = Canvas::new(self.width, self.height);
        let root = c.root();

        // Background.
        c.rect(
            root,
            Rect {
                color: None,
                fill: Some(self.background_color),
                left: 0,
                top: 0,
                width: self.width,
                height: self.height,
                rx: None,
                ry: None,
            },
        );
        proof {
            assert(c.frames() =~= seq![self.spec_bg_frame()]);
        }

        let inner = root.child(self.margin);
        proof {
            assert(inner == self.spec_inner());
        }

        // Title and subtitle.
        self.render_title(&mut c, inner);
        proof {
            assert(c.frames() =~= seq![self.spec_bg_frame()] + self.spec_title_frames());
        }

        // Legend.
        self.render_legend(&mut c, inner);
        let ghost legend_done = seq![self.spec_bg_frame()] + self.spec_title_frames()
            + self.spec_legend_frames(n_g);
        proof {
            assert(c.frames() =~= legend_done);
        }

        // Derived layout quantities.
        let n = self.series_list.len();
        let title_h: i64 = self.title_band_height();
        let legend_h: i64 = if n == 0 {
            0
        } else {
            self.legend_font_size + TITLE_GAP
        };
        let top_off: i64 = if title_h >= legend_h {
            title_h
        } else {
            legend_h
        };
        assert(top_off as int == self.spec_top_offset());
        let ah = inner.height - top_off - self.x_axis_height;
        let aw = inner.width - self.y_axis_width;
        assert(ah as int == self.spec_axis_height());
        assert(aw as int == self.spec_axis_width());
        let split: usize = if self.y_axis_split_number == 0 {
            6
        } else {
            self.y_axis_split_number
        };
        assert(split as int == self.spec_split());

        // With no category slots, only the minimal document remains.
        if self.x_axis_data.len() == 0 {
            proof {
                assert(c.frames() =~= self.spec_frames());
            }
            let out = c.svg();
            return Ok(out);
        }

        // Axis values over all series data.
        let values = self.collect_values();
        let av = get_axis_values(&values, self.y_axis_split_number, &self.y_axis_formatter);
        proof {
            assert(av.min as int == self.spec_lo());
            assert(av.max as int == self.spec_hi());
        }

        // Grid.
        let plot = inner.child(
            MarginBox { left: self.y_axis_width, top: top_off, right: 0, bottom: 0 },
        );
        proof {
            assert(plot == self.spec_plot());
        }
        let mut hidden_h: Vec<usize> = Vec::new();
        hidden_h.push(split);
        let g = Grid {
            left: 0,
            top: 0,
            right: aw,
            bottom: ah,
            color: Some(self.grid_stroke_color),
            stroke_width: self.grid_stroke_width,
            verticals: 0,
            hidden_verticals: Vec::new(),
            horizontals: split,
            hidden_horizontals: hidden_h,
        };
        proof {
            assert(spec_translate_grid_params(g, plot).hidden_verticals =~= Seq::<
                usize,
            >::empty());
            assert(spec_translate_grid_params(g, plot).hidden_horizontals =~= seq![
                self.spec_split() as usize,
            ]);
        }
        c.grid(plot, g);
        proof {
            assert(spec_grid_svg(spec_translate_grid_params(g, plot)) == self.spec_grid_frame());
            assert(c.frames() =~= legend_done + seq![self.spec_grid_frame()]);
        }

        // Vertical axis.
        let yregion = inner.child(MarginBox { left: 0, top: top_off, right: 0, bottom: 0 });
        proof {
            assert(yregion == self.spec_yregion());
        }
        c.line(
            yregion,
            Line {
                color: Some(self.y_axis_stroke_color),
                stroke_width: AXIS_STROKE_WIDTH,
                left: self.y_axis_width,
                top: 0,
                right: self.y_axis_width,
                bottom: ah,
            },
        );
        let ghost grid_done = legend_done + seq![
            self.spec_grid_frame(),
            self.spec_yaxis_line_frame(),
        ];
        proof {
            assert(c.frames() =~= grid_done);
        }
        self.render_ylabels(&mut c, yregion, &av, ah, split);
        let ghost yaxis_done = grid_done + self.spec_ylabels(self.spec_split() + 1);
        proof {
            assert(c.frames() =~= yaxis_done);
        }

        // Category axis.
        let xregion = inner.child(
            MarginBox { left: self.y_axis_width, top: top_off + ah, right: 0, bottom: 0 },
        );
        proof {
            assert(xregion == self.spec_xregion());
        }
        c.line(
            xregion,
            Line {
                color: Some(self.x_axis_stroke_color),
                stroke_width: AXIS_STROKE_WIDTH,
                left: 0,
                top: 0,
                right: aw,
                bottom: 0,
            },
        );
        let ghost xline_done = yaxis_done + seq![self.spec_xaxis_line_frame()];
        proof {
            assert(c.frames() =~= xline_done);
        }
        let unit = div_nn(aw, self.x_axis_data.len() as i64);
        assert(unit as int == self.spec_unit());
        self.render_xlabels(&mut c, xregion, unit, aw);
        let ghost xaxis_done = xline_done + self.spec_xlabels(self.spec_m());
        proof {
            assert(c.frames() =~= xaxis_done);
        }

        // Bars.
        let mut kb: i64 = 0;
        let mut ci: usize = 0;
        while ci < n
            invariant
                ci <= n,
                n == self.series_list@.len(),
                n <= 100,
                kb == self.spec_bar_count_upto(ci as int),
                0 <= kb <= ci,
            decreases n - ci,
        {
            let is_bar = match self.series_list[ci].category {
                Some(SeriesCategory::Line) => false,
                _ => true,
            };
            if is_bar {
                kb = kb + 1;
            }
            ci = ci + 1;
        }
        assert(kb as int == self.spec_bar_count());
        let bw: i64 = if kb <= 0 {
            0
        } else {
            let room = unit - 2 * BAR_MARGIN - (kb - 1) * BAR_GAP;
            if room < kb {
                1
            } else {
                div_nn(room, kb)
            }
        };
        assert(bw as int == self.spec_bar_width());
        self.render_bars(&mut c, plot, &av, unit, bw, ah, aw);
        let ghost bars_done = xaxis_done + self.spec_bars_upto(n_g);
        proof {
            assert(c.frames() =~= bars_done);
        }

        // Line overlays.
        self.render_lines(&mut c, plot, &av, unit, ah, aw);
        proof {
            assert(c.frames() =~= self.spec_frames());
        }
        let out = c.svg();
        Ok(out)
    }

    /// A bar chart over the given series and category labels, styled from
    /// the named theme, with each series assigned its position as index.
    pub fn new_with_theme(series_list: Vec<Series>, x_axis_data: Vec<String>, theme: &str) -> (b: BarChart)
        ensures
            b.series_list@.len() == series_list@.len(),
            forall|i: int|
                0 <= i < series_list@.len() ==> b.series_list@[i] == (Series {
                    index: Some(i as usize),
                    ..series_list@[i]
                }),
            b.x_axis_data == x_axis_data,
            b.width == 6000,
            b.height == 4000,
            b.margin == (MarginBox { left: 100, top: 100, right: 100, bottom: 100 }),
            b.title_text@ == Seq::<char>::empty(),
            b.title_font_size == 180,
            b.title_font_weight is None,
            b.sub_title_text@ == Seq::<char>::empty(),
            b.sub_title_font_size == 140,
            b.sub_title_align == Align::Center,
            b.legend_font_size == 140,
            b.x_axis_font_size == 140,
            b.y_axis_font_size == 140,
            b.x_axis_height == 300,
            b.y_axis_width == 400,
            b.y_axis_split_number == 6,
            b.y_axis_formatter is None,
            b.grid_stroke_width == 10,
            b.series_stroke_width == 20,
            b.series_smooth == false,
            b.series_fill == false,
            b.title_align == Align::Center,
            b.legend_category == LegendCategory::Normal,
            b.font_family@ == "Arial"@,
            b.is_light == (theme@ != "dark"@),
            b.series_colors@ == crate::theme::spec_palette(),
            theme@ != "dark"@ ==> b.background_color == (Color {
                r: 255,
                g: 255,
                b: 255,
                a: 255,
            }) && b.title_font_color == (Color { r: 0x46, g: 0x46, b: 0x4B, a: 255 })
                && b.legend_font_color == (Color { r: 0x46, g: 0x46, b: 0x4B, a: 255 })
                && b.x_axis_stroke_color == (Color { r: 0x6E, g: 0x71, b: 0x79, a: 255 })
                && b.y_axis_stroke_color == (Color { r: 0x6E, g: 0x71, b: 0x79, a: 255 })
                && b.x_axis_font_color == (Color { r: 0x70, g: 0x70, b: 0x70, a: 255 })
                && b.y_axis_font_color == (Color { r: 0x70, g: 0x70, b: 0x70, a: 255 })
                && b.grid_stroke_color == (Color { r: 0xE0, g: 0xE6, b: 0xF1, a: 255 }),
            theme@ == "dark"@ ==> b.background_color == (Color {
                r: 0x10,
                g: 0x0C,
                b: 0x2A,
                a: 255,
            }) && b.title_font_color == (Color { r: 0xEE, g: 0xEE, b: 0xEE, a: 255 })
                && b.legend_font_color == (Color { r: 0xEE, g: 0xEE, b: 0xEE, a: 255 })
                && b.x_axis_stroke_color == (Color { r: 0x6E, g: 0x71, b: 0x79, a: 255 })
                && b.y_axis_stroke_color == (Color { r: 0x6E, g: 0x71, b: 0x79, a: 255 })
                && b.x_axis_font_color == (Color { r: 0xCC, g: 0xCC, b: 0xCC, a: 255 })
                && b.y_axis_font_color == (Color { r: 0xCC, g: 0xCC, b: 0xCC, a: 255 })
                && b.grid_stroke_color == (Color { r: 0x40, g: 0x44, b: 0x4D, a: 255 }),
    {
        let t = crate::theme::get_theme(theme);
        let mut rest = series_list;
        let mut indexed: Vec<Series> = Vec::new();
        let ghost orig = rest@;
        let total = rest.len();
        assert(orig.len() == total);
        let mut i: usize = 0;
        while rest.len() > 0
            invariant
                i == indexed@.len(),
                orig.len() <= usize::MAX,
                orig.len() == i + rest@.len(),
                rest@ == orig.skip(i as int),
                forall|k: int|
                    0 <= k < i ==> indexed@[k] == (Series {
                        index: Some(k as usize),
                        ..orig[k]
                    }),
            decreases rest@.len(),
        {
            let mut s = rest.remove(0);
            s.index = Some(i);
            indexed.push(s);
            proof {
                assert(rest@ =~= orig.skip(i + 1 as int));
            }
            i = i + 1;
        }
        proof {
            assert(indexed@.len() == orig.len());
        }
        BarChart {
            width: 6000,
            height: 4000,
            margin: MarginBox { left: 100, top: 100, right: 100, bottom: 100 },
            series_list: indexed,
            font_family: "Arial".to_owned(),
            background_color: t.background_color,
            is_light: t.is_light,
            title_text: String::new(),
            title_font_size: 180,
            title_font_color: t.title_font_color,
            title_font_weight: None,
            title_align: Align::Center,
            sub_title_text: String::new(),
            sub_title_font_size: 140,
            sub_title_font_color: t.axis_font_color,
            sub_title_align: Align::Center,
            legend_font_size: 140,
            legend_font_color: t.legend_font_color,
            legend_category: LegendCategory::Normal,
            x_axis_data,
            x_axis_height: 300,
            x_axis_stroke_color: t.axis_stroke_color,
            x_axis_font_size: 140,
            x_axis_font_color: t.axis_font_color,
            y_axis_width: 400,
            y_axis_font_size: 140,
            y_axis_font_color: t.axis_font_color,
            y_axis_stroke_color: t.axis_stroke_color,
            y_axis_split_number: 6,
            y_axis_formatter: None,
            grid_stroke_color: t.grid_stroke_color,
            grid_stroke_width: 10,
            series_stroke_width: 20,
            series_colors: t.series_colors,
            series_smooth: false,
            series_fill: false,
        }
    }

    /// A bar chart styled from the default (light) theme.
    pub fn new(series_list: Vec<Series>, x_axis_data: Vec<String>) -> (b: BarChart)
        ensures
            b.series_list@.len() == series_list@.len(),
            forall|i: int|
                0 <= i < series_list@.len() ==> b.series_list@[i] == (Series {
                    index: Some(i as usize),
                    ..series_list@[i]
                }),
            b.x_axis_data == x_axis_data,
            b.width == 6000,
            b.height == 4000,
            b.is_light == true,
            b.series_colors@ == crate::theme::spec_palette(),
    {
        let name = crate::theme::get_default_theme();
        proof {
            reveal_strlit("light");
            reveal_strlit("dark");
            assert("light"@.len() == 5 && "dark"@.len() == 4);
        }
        BarChart::new_with_theme(series_list, x_axis_data, name.as_str())
    }
}

/// The number of values drawn as bars among the first `k` series: the
/// sum of the value counts of the bar-grouped ones.
pub open spec fn spec_bar_cells_upto(c: BarChart, k: int) -> int
    decreases k,
{
    if k <= 0 {
        0
    } else {
        spec_bar_cells_upto(c, k - 1) + if spec_is_bar(c.series_list@[k - 1]) {
            c.series_list@[k - 1].data@.len() as int
        } else {
            0int
        }
    }
}

/// The number of line traces among the first `k` series, counting the
/// optional area fill of each.
pub open spec fn spec_line_frame_count_upto(c: BarChart, k: int) -> int
    decreases k,
{
    if k <= 0 {
        0
    } else {
        spec_line_frame_count_upto(c, k - 1) + if !spec_is_bar(c.series_list@[k - 1]) {
            if c.series_fill {
                2int
            } else {
                1int
            }
        } else {
            0int
        }
    }
}

proof fn lemma_bar_series_frame_count(c: BarChart, s: int, k: int)
    requires
        0 <= k,
    ensures
        c.spec_bar_series_frames(s, k).len() == k,
    decreases k,
{
    if k > 0 {
        lemma_bar_series_frame_count(c, s, k - 1);
    }
}

/// Exactly one rectangle fragment is emitted per value of every
/// bar-grouped series, and none for a line-category series; exactly one
/// path fragment is emitted per line-category series (two with area
/// fill), and none for a bar-grouped one.  With the tick and category
/// label counts this fixes the shape census of the rendered document.
#[verifier::rlimit(80)]
pub proof fn lemma_frame_counts(c: BarChart, k: int)
    requires
        0 <= k <= c.series_list@.len(),
    ensures
        c.spec_bars_upto(k).len() == spec_bar_cells_upto(c, k),
        c.spec_lines_upto(k).len() == spec_line_frame_count_upto(c, k),
        c.spec_ylabels(k).len() == k,
        c.spec_xlabels(k).len() == k,
        c.spec_legend_frames(k).len() == 2 * k,
    decreases k,
{
    if k > 0 {
        lemma_frame_counts(c, k - 1);
        if spec_is_bar(c.series_list@[k - 1]) {
            lemma_bar_series_frame_count(c, k - 1, c.series_list@[k - 1].data@.len() as int);
        }
    }
}

/// Copies a point run.
fn copy_points(v: &Vec<Point>) -> (out: Vec<Point>)
    ensures
        out@ == v@,
{
    let mut out: Vec<Point> = Vec::new();
    let mut i: usize = 0;
    while i < v.len()
        invariant
            i <= v@.len(),
            out@ == v@.take(i as int),
        decreases v@.len() - i,
    {
        out.push(v[i]);
        proof {
            assert(out@ =~= v@.take(i + 1 as int));
        }
        i = i + 1;
    }
    proof {
        assert(v@.take(v@.len() as int) =~= v@);
    }
    out
}

/// Two renders of one configuration are byte-identical: the rendered
/// document is a function of the configuration value alone, so equal
/// configurations yield equal documents.
pub proof fn lemma_render_deterministic(a: BarChart, b: BarChart)
    requires
        a == b,
    ensures
        a.spec_svg() == b.spec_svg(),
{
}

} // verus!

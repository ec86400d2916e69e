//! The horizontal-bar chart driver: axis roles swapped, with categories
//! on the vertical axis and values on the horizontal one, plus optional
//! per-bar value labels placed at the bar's end.

use vstd::prelude::*;
use crate::axis::{
    AxisValues, get_axis_values, spec_axis_label, spec_axis_min, spec_axis_split, spec_axis_step,
    spec_offset,
};
use crate::bar_chart::{
    AXIS_STROKE_WIDTH, BAR_GAP, BAR_MARGIN, LABEL_GAP, LEGEND_PAD, LEGEND_SEP, LEGEND_SWATCH,
    TITLE_GAP, series_color, spec_align_x, spec_clamp, spec_series_color, spec_series_ok,
    align_x,
};
use crate::canvas::{
    Canvas, MarginBox, Region, spec_canvas_svg, spec_translate_rect, spec_translate_line,
    spec_translate_grid_params,
};
use crate::color::Color;
use crate::common::{
    Align, LegendCategory, MAX_VALUE, RenderError, Series, div_nn, measure_text_width,
    spec_text_width,
};
use crate::component::{
    Grid, GridParams, Line, Rect, Text, spec_grid_svg, spec_opt_view, spec_text_svg,
};
use crate::decimal::{spec_tenths_text, format_tenths};

verus! {

/// A horizontal bar chart: category labels run down the left side and
/// values grow rightward.
pub struct HorizontalBarChart {
    pub width: i64,
    pub height: i64,
    pub margin: MarginBox,
    pub series_list: Vec<Series>,
    pub font_family: String,
    pub background_color: Color,
    pub is_light: bool,
    pub title_text: String,
    pub title_font_size: i64,
    pub title_font_color: Color,
    pub title_font_weight: Option<String>,
    pub title_align: Align,
    pub sub_title_text: String,
    pub sub_title_font_size: i64,
    pub sub_title_font_color: Color,
    pub sub_title_align: Align,
    pub legend_font_size: i64,
    pub legend_font_color: Color,
    pub legend_category: LegendCategory,
    pub x_axis_data: Vec<String>,
    pub x_axis_height: i64,
    pub axis_stroke_color: Color,
    pub axis_font_size: i64,
    pub axis_font_color: Color,
    pub value_split_number: usize,
    pub value_formatter: Option<String>,
    pub grid_stroke_color: Color,
    pub grid_stroke_width: i64,
    pub series_colors: Vec<Color>,
    pub series_label_font_color: Color,
    pub series_label_font_size: i64,
}

impl HorizontalBarChart {
    /// The whole drawing region.
    pub open spec fn spec_root(self) -> Region {
        Region { left: 0, top: 0, width: self.width, height: self.height }
    }

    /// The region inside the configured margin.
    pub open spec fn spec_inner(self) -> Region {
        self.spec_root().spec_child(self.margin)
    }

    /// The height reserved for the title band: the title line and the
    /// subtitle line under it, each only when its text is present.
    pub open spec fn spec_title_height(self) -> int {
        (if self.title_text@.len() == 0 {
            0
        } else {
            self.title_font_size + TITLE_GAP
        }) + (if self.sub_title_text@.len() == 0 {
            0
        } else {
            self.sub_title_font_size + TITLE_GAP
        })
    }

    /// The height reserved for the legend.
    pub open spec fn spec_legend_height(self) -> int {
        if self.series_list@.len() == 0 {
            0
        } else {
            self.legend_font_size + TITLE_GAP
        }
    }

    /// The top offset of the axis area.
    pub open spec fn spec_top_offset(self) -> int {
        if self.spec_title_height() >= self.spec_legend_height() {
            self.spec_title_height()
        } else {
            self.spec_legend_height()
        }
    }

    /// The widest category label, under the deterministic text metrics,
    /// over the first `k` labels.
    pub open spec fn spec_max_label_width_upto(self, k: int) -> int
        decreases k,
    {
        if k <= 0 {
            0
        } else {
            let prev = self.spec_max_label_width_upto(k - 1);
            let w = spec_text_width(self.x_axis_data@[k - 1]@, self.axis_font_size as int);
            if w > prev {
                w
            } else {
                prev
            }
        }
    }

    /// The width of the category gutter: the widest label plus a gap.
    pub open spec fn spec_gutter(self) -> int {
        self.spec_max_label_width_upto(self.x_axis_data@.len() as int) + LABEL_GAP
    }

    /// The height of the axis area.
    pub open spec fn spec_axis_height(self) -> int {
        self.spec_inner().height - self.spec_top_offset() - self.x_axis_height
    }

    /// The width of the axis area.
    pub open spec fn spec_axis_width(self) -> int {
        self.spec_inner().width - self.spec_gutter()
    }

    /// The plot region: right of the gutter, under the title band.
    pub open spec fn spec_plot(self) -> Region {
        self.spec_inner().spec_child(
            MarginBox {
                left: self.spec_gutter() as i64,
                top: self.spec_top_offset() as i64,
                right: 0,
                bottom: 0,
            },
        )
    }

    /// The region the category axis is drawn in.
    pub open spec fn spec_yregion(self) -> Region {
        self.spec_inner().spec_child(
            MarginBox { left: 0, top: self.spec_top_offset() as i64, right: 0, bottom: 0 },
        )
    }

    /// The region the value axis is drawn in.
    pub open spec fn spec_xregion(self) -> Region {
        self.spec_inner().spec_child(
            MarginBox {
                left: self.spec_gutter() as i64,
                top: (self.spec_top_offset() + self.spec_axis_height()) as i64,
                right: 0,
                bottom: 0,
            },
        )
    }

    /// The data values of the first `k` series, joined in order.
    pub open spec fn spec_values_upto(self, k: int) -> Seq<i64>
        decreases k,
    {
        if k <= 0 {
            Seq::<i64>::empty()
        } else {
            self.spec_values_upto(k - 1) + self.series_list@[k - 1].data@
        }
    }

    /// All data values of all series, joined in series order.
    pub open spec fn spec_all_values(self) -> Seq<i64> {
        self.spec_values_upto(self.series_list@.len() as int)
    }

    /// The effective tick-interval count of the value axis.
    pub open spec fn spec_split(self) -> int {
        spec_axis_split(self.value_split_number as int)
    }

    /// The least tick of the value axis.
    pub open spec fn spec_lo(self) -> int {
        spec_axis_min(self.spec_all_values(), self.spec_split())
    }

    /// The tick spacing of the value axis.
    pub open spec fn spec_step(self) -> int {
        spec_axis_step(self.spec_all_values(), self.spec_split())
    }

    /// The greatest tick of the value axis.
    pub open spec fn spec_hi(self) -> int {
        self.spec_lo() + self.spec_split() * self.spec_step()
    }

    /// The view of the optional tick formatter template.
    pub open spec fn spec_fmt(self) -> Option<Seq<char>> {
        match self.value_formatter {
            Some(f) => Some(f@),
            None => None,
        }
    }

    /// The number of category slots.
    pub open spec fn spec_m(self) -> int {
        self.x_axis_data@.len() as int
    }

    /// The height of one category slot.
    pub open spec fn spec_unit(self) -> int {
        self.spec_axis_height() / self.spec_m()
    }

    /// The height of one bar: the slot, less its margins and gaps, split
    /// evenly over the series (never below one tenth).
    pub open spec fn spec_bar_height(self) -> int {
        let n = self.series_list@.len() as int;
        if n <= 0 {
            0
        } else {
            let room = self.spec_unit() - 2 * BAR_MARGIN - (n - 1) * BAR_GAP;
            if room < n {
                1
            } else {
                room / n
            }
        }
    }

    /// The rendered length of a (clamped) data value along the value
    /// axis.
    pub open spec fn spec_value_length(self, v: int) -> int {
        spec_offset(
            self.spec_lo(),
            self.spec_hi(),
            spec_clamp(v, self.spec_lo(), self.spec_hi()),
            self.spec_axis_width(),
        )
    }

    /// Whether the configuration lies within the renderer's working
    /// ranges.  The bounds are the machine limits of the fixed-point
    /// model: sizes and fonts within the drawable range, at most one
    /// hundred series with names of at most a thousand characters (so
    /// the legend row stays within the drawable range), one million tick
    /// intervals (so the tick arithmetic stays within a signed 64-bit
    /// count of tenths), and value lists no longer than the category
    /// list (so every slot position stays within the axis area).
    pub open spec fn spec_valid(self) -> bool {
        &&& 0 < self.width <= 1_000_000
        &&& 0 < self.height <= 1_000_000
        &&& 0 <= self.margin.left <= 1_000_000
        &&& 0 <= self.margin.top <= 1_000_000
        &&& 0 <= self.margin.right <= 1_000_000
        &&& 0 <= self.margin.bottom <= 1_000_000
        &&& 0 <= self.title_font_size <= 10_000
        &&& 0 <= self.sub_title_font_size <= 10_000
        &&& 0 <= self.legend_font_size <= 10_000
        &&& 0 <= self.axis_font_size <= 10_000
        &&& 0 <= self.series_label_font_size <= 10_000
        &&& 0 <= self.x_axis_height <= 1_000_000
        &&& 0 <= self.grid_stroke_width <= 10_000
        &&& 1 <= self.series_colors@.len()
        &&& self.series_list@.len() <= 100
        &&& forall|i: int|
            0 <= i < self.series_list@.len() ==> spec_series_ok(
                #[trigger] self.series_list@[i],
                self.spec_m(),
            )
        &&& self.spec_m() <= 1_000_000_000
        &&& self.value_split_number <= 1_000_000
        &&& forall|i: int|
            0 <= i < self.x_axis_data@.len() ==> (#[trigger] self.x_axis_data@[i])@.len()
                <= 1_000_000
        &&& self.title_text@.len() <= 1_000_000
        &&& self.sub_title_text@.len() <= 1_000_000
        &&& match self.value_formatter {
            Some(f) => f@.len() <= 1_000_000,
            None => true,
        }
        &&& self.margin.left + self.margin.right + self.spec_gutter() <= self.width
        &&& self.margin.top + self.margin.bottom + self.spec_top_offset() + self.x_axis_height
            <= self.height
    }

    /// The background fragment.
    pub open spec fn spec_bg_frame(self) -> Seq<char> {
        spec_translate_rect(
            Rect {
                color: None,
                fill: Some(self.background_color),
                left: 0,
                top: 0,
                width: self.width,
                height: self.height,
                rx: None,
                ry: None,
            },
            self.spec_root(),
        ).spec_svg()
    }

    /// The title fragments: the aligned title block, then the aligned
    /// subtitle block under it, each only when its text is present.
    pub open spec fn spec_title_frames(self) -> Seq<Seq<char>> {
        (if self.title_text@.len() == 0 {
            Seq::<Seq<char>>::empty()
        } else {
            let w = spec_text_width(self.title_text@, self.title_font_size as int);
            let x = self.spec_inner().left + spec_align_x(
                self.spec_inner().width as int,
                w,
                self.title_align,
            );
            let y = self.spec_inner().top + self.title_font_size;
            seq![
                spec_text_svg(
                    self.title_text@,
                    self.font_family@,
                    self.title_font_size,
                    Some(self.title_font_color),
                    Some(x as i64),
                    Some(y as i64),
                    None,
                    None,
                    spec_opt_view(self.title_font_weight),
                    None,
                ),
            ]
        }) + (if self.sub_title_text@.len() == 0 {
            Seq::<Seq<char>>::empty()
        } else {
            let w = spec_text_width(self.sub_title_text@, self.sub_title_font_size as int);
            let x = self.spec_inner().left + spec_align_x(
                self.spec_inner().width as int,
                w,
                self.sub_title_align,
            );
            let y = self.spec_inner().top + (if self.title_text@.len() == 0 {
                0
            } else {
                self.title_font_size + TITLE_GAP
            }) + self.sub_title_font_size;
            seq![
                spec_text_svg(
                    self.sub_title_text@,
                    self.font_family@,
                    self.sub_title_font_size,
                    Some(self.sub_title_font_color),
                    Some(x as i64),
                    Some(y as i64),
                    None,
                    None,
                    None,
                    None,
                ),
            ]
        })
    }

    /// The left edge of the `i`-th legend entry.
    pub open spec fn spec_legend_x(self, i: int) -> int
        decreases i,
    {
        if i <= 0 {
            0
        } else {
            self.spec_legend_x(i - 1) + LEGEND_SWATCH + LEGEND_PAD + spec_text_width(
                self.series_list@[i - 1].name@,
                self.legend_font_size as int,
            ) + LEGEND_SEP
        }
    }

    /// The swatch fragment of the `i`-th legend entry.
    pub open spec fn spec_swatch_frame(self, i: int) -> Seq<char> {
        let x = self.spec_legend_x(i);
        let color = spec_series_color(self.series_colors@, self.series_list@[i].index, i);
        match self.legend_category {
            LegendCategory::Rect => spec_translate_rect(
                Rect {
                    color: None,
                    fill: Some(color),
                    left: x as i64,
                    top: 0,
                    width: LEGEND_SWATCH,
                    height: self.legend_font_size,
                    rx: None,
                    ry: None,
                },
                self.spec_inner(),
            ).spec_svg(),
            LegendCategory::Normal => spec_translate_line(
                Line {
                    color: Some(color),
                    stroke_width: 20,
                    left: x as i64,
                    top: (self.legend_font_size / 2) as i64,
                    right: (x + LEGEND_SWATCH) as i64,
                    bottom: (self.legend_font_size / 2) as i64,
                },
                self.spec_inner(),
            ).spec_svg(),
        }
    }

    /// The label fragment of the `i`-th legend entry.
    pub open spec fn spec_legend_text_frame(self, i: int) -> Seq<char> {
        let x = self.spec_legend_x(i) + LEGEND_SWATCH + LEGEND_PAD;
        spec_text_svg(
            self.series_list@[i].name@,
            self.font_family@,
            self.legend_font_size,
            Some(self.legend_font_color),
            Some((self.spec_inner().left + x) as i64),
            Some((self.spec_inner().top + self.legend_font_size) as i64),
            None,
            None,
            None,
            None,
        )
    }

    /// The legend fragments of the first `k` series.
    pub open spec fn spec_legend_frames(self, k: int) -> Seq<Seq<char>>
        decreases k,
    {
        if k <= 0 {
            Seq::<Seq<char>>::empty()
        } else {
            self.spec_legend_frames(k - 1) + seq![
                self.spec_swatch_frame(k - 1),
                self.spec_legend_text_frame(k - 1),
            ]
        }
    }

    /// The category axis line fragment.
    pub open spec fn spec_yaxis_line_frame(self) -> Seq<char> {
        spec_translate_line(
            Line {
                color: Some(self.axis_stroke_color),
                stroke_width: AXIS_STROKE_WIDTH,
                left: self.spec_gutter() as i64,
                top: 0,
                right: self.spec_gutter() as i64,
                bottom: self.spec_axis_height() as i64,
            },
            self.spec_yregion(),
        ).spec_svg()
    }

    /// The `i`-th category label fragment, top-down: the topmost label
    /// carries the last category.
    pub open spec fn spec_ylabel_frame(self, i: int) -> Seq<char> {
        let text = self.x_axis_data@[self.spec_m() - 1 - i]@;
        let y = self.spec_unit() * i + self.spec_unit() / 2;
        spec_text_svg(
            text,
            self.font_family@,
            self.axis_font_size,
            Some(self.axis_font_color),
            Some(self.spec_yregion().left),
            Some((self.spec_yregion().top + y) as i64),
            None,
            None,
            None,
            None,
        )
    }

    /// The first `k` category label fragments.
    pub open spec fn spec_ylabels(self, k: int) -> Seq<Seq<char>>
        decreases k,
    {
        if k <= 0 {
            Seq::<Seq<char>>::empty()
        } else {
            self.spec_ylabels(k - 1) + seq![self.spec_ylabel_frame(k - 1)]
        }
    }

    /// The value axis line fragment.
    pub open spec fn spec_xaxis_line_frame(self) -> Seq<char> {
        spec_translate_line(
            Line {
                color: Some(self.axis_stroke_color),
                stroke_width: AXIS_STROKE_WIDTH,
                left: 0,
                top: 0,
                right: self.spec_axis_width() as i64,
                bottom: 0,
            },
            self.spec_xregion(),
        ).spec_svg()
    }

    /// The `i`-th value tick label fragment, left to right.
    pub open spec fn spec_xlabel_frame(self, i: int) -> Seq<char> {
        let text = spec_axis_label(self.spec_fmt(), self.spec_lo() + i * self.spec_step());
        let x = self.spec_axis_width() * i / self.spec_split();
        spec_text_svg(
            text,
            self.font_family@,
            self.axis_font_size,
            Some(self.axis_font_color),
            Some((self.spec_xregion().left + x) as i64),
            Some((self.spec_xregion().top + self.axis_font_size + LABEL_GAP) as i64),
            None,
            None,
            None,
            None,
        )
    }

    /// The first `k` value tick label fragments.
    pub open spec fn spec_xlabels(self, k: int) -> Seq<Seq<char>>
        decreases k,
    {
        if k <= 0 {
            Seq::<Seq<char>>::empty()
        } else {
            self.spec_xlabels(k - 1) + seq![self.spec_xlabel_frame(k - 1)]
        }
    }

    /// The grid fragment: one vertical gridline per tick, the leftmost
    /// hidden under the category axis.
    pub open spec fn spec_grid_frame(self) -> Seq<char> {
        spec_grid_svg(
            GridParams {
                left: self.spec_plot().left,
                top: self.spec_plot().top,
                right: (self.spec_plot().left + self.spec_axis_width()) as i64,
                bottom: (self.spec_plot().top + self.spec_axis_height()) as i64,
                color: Some(self.grid_stroke_color),
                stroke_width: self.grid_stroke_width,
                verticals: self.spec_split() as usize,
                hidden_verticals: seq![0usize],
                horizontals: 0,
                hidden_horizontals: Seq::<usize>::empty(),
            },
        )
    }

    /// The top edge of the bar for value `j` of series `s`: values stack
    /// bottom-up within their category slot.
    pub open spec fn spec_bar_top(self, s: int, j: int) -> int {
        let dlen = self.series_list@[s].data@.len() as int;
        self.spec_unit() * (dlen - 1 - j) + BAR_MARGIN + s * (self.spec_bar_height() + BAR_GAP)
    }

    /// The rectangle fragment of value `j` of series `s`.
    pub open spec fn spec_bar_rect_frame(self, s: int, j: int) -> Seq<char> {
        let len = self.spec_value_length(self.series_list@[s].data@[j] as int);
        spec_translate_rect(
            Rect {
                color: None,
                fill: Some(
                    spec_series_color(self.series_colors@, self.series_list@[s].index, s),
                ),
                left: 0,
                top: self.spec_bar_top(s, j) as i64,
                width: len as i64,
                height: self.spec_bar_height() as i64,
                rx: None,
                ry: None,
            },
            self.spec_plot(),
        ).spec_svg()
    }

    /// The first `k` rectangle fragments of series `s`.
    pub open spec fn spec_bar_series_frames(self, s: int, k: int) -> Seq<Seq<char>>
        decreases k,
    {
        if k <= 0 {
            Seq::<Seq<char>>::empty()
        } else {
            self.spec_bar_series_frames(s, k - 1) + seq![self.spec_bar_rect_frame(s, k - 1)]
        }
    }

    /// The bar fragments of the first `k` series.
    pub open spec fn spec_bars_upto(self, k: int) -> Seq<Seq<char>>
        decreases k,
    {
        if k <= 0 {
            Seq::<Seq<char>>::empty()
        } else {
            self.spec_bars_upto(k - 1) + self.spec_bar_series_frames(
                k - 1,
                self.series_list@[k - 1].data@.len() as int,
            )
        }
    }

    /// The value label fragment of value `j` of series `s`: the formatted
    /// value at the bar's end, vertically centered on the bar.
    pub open spec fn spec_value_label_frame(self, s: int, j: int) -> Seq<char> {
        let len = self.spec_value_length(self.series_list@[s].data@[j] as int);
        let y = self.spec_bar_top(s, j) + self.spec_bar_height() / 2;
        spec_text_svg(
            spec_tenths_text(self.series_list@[s].data@[j] as int),
            self.font_family@,
            self.series_label_font_size,
            Some(self.series_label_font_color),
            Some((self.spec_plot().left + len) as i64),
            Some((self.spec_plot().top + y) as i64),
            Some(30),
            Some((self.series_label_font_size / 2 - 20) as i64),
            None,
            None,
        )
    }

    /// The first `k` value label fragments of series `s`; none when its
    /// labels are hidden.
    pub open spec fn spec_value_labels_series(self, s: int, k: int) -> Seq<Seq<char>>
        decreases k,
    {
        if k <= 0 {
            Seq::<Seq<char>>::empty()
        } else {
            self.spec_value_labels_series(s, k - 1) + seq![self.spec_value_label_frame(s, k - 1)]
        }
    }

    /// The value label fragments of the first `k` series, for those with
    /// labels shown.
    pub open spec fn spec_value_labels_upto(self, k: int) -> Seq<Seq<char>>
        decreases k,
    {
        if k <= 0 {
            Seq::<Seq<char>>::empty()
        } else {
            self.spec_value_labels_upto(k - 1) + if self.series_list@[k - 1].label_show {
                self.spec_value_labels_series(
                    k - 1,
                    self.series_list@[k - 1].data@.len() as int,
                )
            } else {
                Seq::<Seq<char>>::empty()
            }
        }
    }

    /// Every fragment of the render, in emission order.  With no category
    /// slots only the minimal document remains: background, title and
    /// legend.
    pub open spec fn spec_frames(self) -> Seq<Seq<char>> {
        let n = self.series_list@.len() as int;
        let head = seq![self.spec_bg_frame()] + self.spec_title_frames()
            + self.spec_legend_frames(n);
        if self.spec_m() == 0 {
            head
        } else {
            head + seq![self.spec_yaxis_line_frame()] + self.spec_ylabels(self.spec_m())
                + seq![self.spec_xaxis_line_frame()] + self.spec_xlabels(self.spec_split() + 1)
                + seq![self.spec_grid_frame()] + self.spec_bars_upto(n)
                + self.spec_value_labels_upto(n)
        }
    }

    /// The whole rendered document.
    pub open spec fn spec_svg(self) -> Seq<char> {
        spec_canvas_svg(self.width as int, self.height as int, self.spec_frames())
    }

    /// Whether the configuration lies within the renderer's working
    /// ranges.
    pub fn validate(&self) -> (b: bool)
        ensures
            b == self.spec_valid(),
    {
        let basic = 0 < self.width && self.width <= 1_000_000 && 0 < self.height && self.height
            <= 1_000_000 && 0 <= self.margin.left && self.margin.left <= 1_000_000 && 0
            <= self.margin.top && self.margin.top <= 1_000_000 && 0 <= self.margin.right
            && self.margin.right <= 1_000_000 && 0 <= self.margin.bottom && self.margin.bottom
            <= 1_000_000 && 0 <= self.title_font_size && self.title_font_size <= 10_000 && 0
            <= self.sub_title_font_size && self.sub_title_font_size <= 10_000 && 0
            <= self.legend_font_size && self.legend_font_size <= 10_000 && 0
            <= self.axis_font_size && self.axis_font_size <= 10_000 && 0
            <= self.series_label_font_size && self.series_label_font_size <= 10_000 && 0
            <= self.x_axis_height && self.x_axis_height <= 1_000_000 && 0
            <= self.grid_stroke_width && self.grid_stroke_width <= 10_000 && 1
            <= self.series_colors.len() && self.series_list.len() <= 100
            && self.x_axis_data.len() <= 1_000_000_000 && self.value_split_number <= 1_000_000;
        if !basic {
            return false;
        }
        let m = self.x_axis_data.len();
        let mut i: usize = 0;
        while i < self.series_list.len()
            invariant
                i <= self.series_list@.len(),
                m == self.x_axis_data@.len(),
                forall|k: int|
                    0 <= k < i ==> spec_series_ok(#[trigger] self.series_list@[k], m as int),
            decreases self.series_list@.len() - i,
        {
            let s = &self.series_list[i];
            if s.name.as_str().unicode_len() > 1000 {
                return false;
            }
            if m > 0 {
                if s.data.len() > m {
                    return false;
                }
                let mut j: usize = 0;
                while j < s.data.len()
                    invariant
                        j <= s.data@.len(),
                        0 <= i < self.series_list@.len(),
                        s == self.series_list@[i as int],
                        0 < m == self.x_axis_data@.len(),
                        forall|q: int|
                            0 <= q < j ==> -MAX_VALUE <= #[trigger] s.data@[q] <= MAX_VALUE,
                    decreases s.data@.len() - j,
                {
                    let v = s.data[j];
                    if v < -MAX_VALUE || v > MAX_VALUE {
                        proof {
                            assert(!spec_series_ok(self.series_list@[i as int], m as int));
                        }
                        return false;
                    }
                    j = j + 1;
                }
            }
            i = i + 1;
        }
        let mut i: usize = 0;
        while i < m
            invariant
                i <= m,
                m == self.x_axis_data@.len(),
                forall|k: int|
                    0 <= k < i ==> (#[trigger] self.x_axis_data@[k])@.len() <= 1_000_000,
            decreases m - i,
        {
            if self.x_axis_data[i].as_str().unicode_len() > 1_000_000 {
                return false;
            }
            i = i + 1;
        }
        if self.title_text.as_str().unicode_len() > 1_000_000 {
            return false;
        }
        if self.sub_title_text.as_str().unicode_len() > 1_000_000 {
            return false;
        }
        match &self.value_formatter {
            Some(f) => {
                if f.as_str().unicode_len() > 1_000_000 {
                    return false;
                }
            },
            None => {},
        }
        let gutter = self.measure_gutter();
        if self.margin.left + self.margin.right + gutter > self.width {
            return false;
        }
        let title_h: i64 = self.title_band_height();
        let legend_h: i64 = if self.series_list.len() == 0 {
            0
        } else {
            self.legend_font_size + TITLE_GAP
        };
        let top_off: i64 = if title_h >= legend_h {
            title_h
        } else {
            legend_h
        };
        if self.margin.top + self.margin.bottom + top_off + self.x_axis_height > self.height {
            return false;
        }
        true
    }

    /// The height of the title band.
    fn title_band_height(&self) -> (h: i64)
        requires
            0 <= self.title_font_size <= 10_000,
            0 <= self.sub_title_font_size <= 10_000,
        ensures
            h as int == self.spec_title_height(),
            0 <= h <= 20_100,
    {
        let t: i64 = if self.title_text.as_str().is_empty() {
            0
        } else {
            self.title_font_size + TITLE_GAP
        };
        let s: i64 = if self.sub_title_text.as_str().is_empty() {
            0
        } else {
            self.sub_title_font_size + TITLE_GAP
        };
        t + s
    }

    /// Emits the title band: the aligned title, then the aligned
    /// subtitle under it, each only when its text is present.
    fn render_title(&self, c: &mut Canvas, inner: Region)
        requires
            self.spec_valid(),
            inner == self.spec_inner(),
            old(c).width == self.width,
            old(c).height == self.height,
        ensures
            final(c).width == old(c).width,
            final(c).height == old(c).height,
            final(c).frames() == old(c).frames() + self.spec_title_frames(),
    {
        if !self.title_text.as_str().is_empty() {
            let w = measure_text_width(self.title_text.as_str(), self.title_font_size);
            let x = align_x(inner.width, w, self.title_align);
            let t = Text {
                text: self.title_text.clone(),
                font_family: self.font_family.clone(),
                font_size: self.title_font_size,
                fill: Some(self.title_font_color),
                x: Some(x),
                y: Some(self.title_font_size),
                dx: None,
                dy: None,
                font_weight: self.title_font_weight.clone(),
                transform: None,
            };
            c.text(inner, t);
        }
        if !self.sub_title_text.as_str().is_empty() {
            let w = measure_text_width(self.sub_title_text.as_str(), self.sub_title_font_size);
            let x = align_x(inner.width, w, self.sub_title_align);
            let above: i64 = if self.title_text.as_str().is_empty() {
                0
            } else {
                self.title_font_size + TITLE_GAP
            };
            let t = Text {
                text: self.sub_title_text.clone(),
                font_family: self.font_family.clone(),
                font_size: self.sub_title_font_size,
                fill: Some(self.sub_title_font_color),
                x: Some(x),
                y: Some(above + self.sub_title_font_size),
                dx: None,
                dy: None,
                font_weight: None,
                transform: None,
            };
            c.text(inner, t);
        }
        proof {
            assert(c.frames() =~= old(c).frames() + self.spec_title_frames());
        }
    }

    /// The width of the category gutter, from the measured labels.
    fn measure_gutter(&self) -> (g: i64)
        requires
            0 <= self.axis_font_size <= 10_000,
            forall|i: int|
                0 <= i < self.x_axis_data@.len() ==> (#[trigger] self.x_axis_data@[i])@.len()
                    <= 1_000_000,
        ensures
            g as int == self.spec_gutter(),
            0 <= g <= 6_000_000_050,
    {
        let m = self.x_axis_data.len();
        let mut widest: i64 = 0;
        let mut i: usize = 0;
        while i < m
            invariant
                i <= m,
                m == self.x_axis_data@.len(),
                0 <= self.axis_font_size <= 10_000,
                forall|k: int|
                    0 <= k < self.x_axis_data@.len() ==> (#[trigger] self.x_axis_data@[k])@.len()
                        <= 1_000_000,
                widest == self.spec_max_label_width_upto(i as int),
                0 <= widest <= 6_000_000_000,
            decreases m - i,
        {
            proof {
                assert(spec_text_width(
                    self.x_axis_data@[i as int]@,
                    self.axis_font_size as int,
                ) <= 6_000_000_000) by (nonlinear_arith)
                    requires
                        (self.x_axis_data@[i as int])@.len() <= 1_000_000,
                        0 <= self.axis_font_size <= 10_000,
                ;
            }
            let w = measure_text_width(self.x_axis_data[i].as_str(), self.axis_font_size);
            if w > widest {
                widest = w;
            }
            i = i + 1;
        }
        widest + LABEL_GAP
    }

    /// All series data values, joined in series order.
    fn collect_values(&self) -> (values: Vec<i64>)
        requires
            self.spec_valid(),
            1 <= self.spec_m(),
        ensures
            values@ == self.spec_all_values(),
            forall|q: int|
                0 <= q < values@.len() ==> -MAX_VALUE <= #[trigger] values@[q] <= MAX_VALUE,
    {
        let n = self.series_list.len();
        let mut values: Vec<i64> = Vec::new();
        let mut vi: usize = 0;
        while vi < n
            invariant
                vi <= n,
                n == self.series_list@.len(),
                self.spec_valid(),
                1 <= self.spec_m(),
                values@ == self.spec_values_upto(vi as int),
                forall|q: int|
                    0 <= q < values@.len() ==> -MAX_VALUE <= #[trigger] values@[q] <= MAX_VALUE,
            decreases n - vi,
        {
            let s = &self.series_list[vi];
            let mut j: usize = 0;
            while j < s.data.len()
                invariant
                    j <= s.data@.len(),
                    0 <= vi < self.series_list@.len(),
                    s == self.series_list@[vi as int],
                    self.spec_valid(),
                    1 <= self.spec_m(),
                    values@ == self.spec_values_upto(vi as int) + s.data@.take(j as int),
                    forall|q: int|
                        0 <= q < values@.len() ==> -MAX_VALUE <= #[trigger] values@[q]
                            <= MAX_VALUE,
                decreases s.data@.len() - j,
            {
                values.push(s.data[j]);
                proof {
                    assert(spec_series_ok(self.series_list@[vi as int], self.spec_m()));
                    assert(values@ =~= self.spec_values_upto(vi as int) + s.data@.take(
                        j + 1 as int,
                    ));
                }
                j = j + 1;
            }
            proof {
                assert(s.data@.take(s.data@.len() as int) =~= s.data@);
                assert(values@ =~= self.spec_values_upto(vi + 1 as int));
            }
            vi = vi + 1;
        }
        values
    }

    /// Emits the legend: one swatch and one label per series.
    #[verifier::rlimit(80)]
    fn render_legend(&self, c: &mut Canvas, inner: Region)
        requires
            self.spec_valid(),
            inner == self.spec_inner(),
            old(c).width == self.width,
            old(c).height == self.height,
        ensures
            final(c).width == old(c).width,
            final(c).height == old(c).height,
            final(c).frames() == old(c).frames() + self.spec_legend_frames(
                self.series_list@.len() as int,
            ),
    {
        let n = self.series_list.len();
        let mut lx: i64 = 0;
        let mut si: usize = 0;
        while si < n
            invariant
                si <= n,
                n == self.series_list@.len(),
                self.spec_valid(),
                inner == self.spec_inner(),
                c.width == self.width,
                c.height == self.height,
                lx == self.spec_legend_x(si as int),
                0 <= lx <= si * 6_040_000,
                c.frames() == old(c).frames() + self.spec_legend_frames(si as int),
            decreases n - si,
        {
            let s = &self.series_list[si];
            let color = series_color(&self.series_colors, &s.index, si);
            match self.legend_category {
                LegendCategory::Rect => {
                    c.rect(
                        inner,
                        Rect {
                            color: None,
                            fill: Some(color),
                            left: lx,
                            top: 0,
                            width: LEGEND_SWATCH,
                            height: self.legend_font_size,
                            rx: None,
                            ry: None,
                        },
                    );
                },
                LegendCategory::Normal => {
                    let mid = div_nn(self.legend_font_size, 2);
                    c.line(
                        inner,
                        Line {
                            color: Some(color),
                            stroke_width: 20,
                            left: lx,
                            top: mid,
                            right: lx + LEGEND_SWATCH,
                            bottom: mid,
                        },
                    );
                },
            }
            proof {
                assert(spec_series_ok(self.series_list@[si as int], self.spec_m()));
                assert(spec_text_width(s.name@, self.legend_font_size as int) <= 6_000_000)
                    by (nonlinear_arith)
                    requires
                        s.name@.len() <= 1000,
                        0 <= self.legend_font_size <= 10_000,
                ;
            }
            let w = measure_text_width(s.name.as_str(), self.legend_font_size);
            let t = Text {
                text: s.name.clone(),
                font_family: self.font_family.clone(),
                font_size: self.legend_font_size,
                fill: Some(self.legend_font_color),
                x: Some(lx + LEGEND_SWATCH + LEGEND_PAD),
                y: Some(self.legend_font_size),
                dx: None,
                dy: None,
                font_weight: None,
                transform: None,
            };
            c.text(inner, t);
            proof {
                assert(c.frames() =~= old(c).frames() + self.spec_legend_frames(si + 1 as int));
            }
            lx = lx + LEGEND_SWATCH + LEGEND_PAD + w + LEGEND_SEP;
            si = si + 1;
        }
    }

    /// Emits the category labels down the gutter, last category on top.
    fn render_ylabels(&self, c: &mut Canvas, yregion: Region, unit: i64, ah: i64)
        requires
            self.spec_valid(),
            1 <= self.spec_m(),
            yregion == self.spec_yregion(),
            old(c).width == self.width,
            old(c).height == self.height,
            unit as int == self.spec_unit(),
            0 <= unit <= 1_000_000,
            ah as int == self.spec_axis_height(),
            0 <= ah <= 1_000_000,
        ensures
            final(c).width == old(c).width,
            final(c).height == old(c).height,
            final(c).frames() == old(c).frames() + self.spec_ylabels(self.spec_m()),
    {
        let m = self.x_axis_data.len();
        let half_unit = div_nn(unit, 2);
        let mut i: usize = 0;
        while i < m
            invariant
                i <= m,
                m == self.x_axis_data@.len(),
                1 <= m,
                self.spec_valid(),
                yregion == self.spec_yregion(),
                c.width == self.width,
                c.height == self.height,
                unit as int == self.spec_unit(),
                0 <= unit <= 1_000_000,
                half_unit == self.spec_unit() / 2,
                0 <= half_unit <= 1_000_000,
                ah as int == self.spec_axis_height(),
                0 <= ah <= 1_000_000,
                c.frames() == old(c).frames() + self.spec_ylabels(i as int),
            decreases m - i,
        {
            proof {
                assert(0 <= unit * (i as int) <= ah) by (nonlinear_arith)
                    requires
                        0 <= (i as int) < self.spec_m(),
                        1 <= self.spec_m(),
                        0 <= ah,
                        unit == ah as int / self.spec_m(),
                ;
            }
            let y = unit * (i as i64) + half_unit;
            let t = Text {
                text: self.x_axis_data[m - 1 - i].clone(),
                font_family: self.font_family.clone(),
                font_size: self.axis_font_size,
                fill: Some(self.axis_font_color),
                x: Some(0),
                y: Some(y),
                dx: None,
                dy: None,
                font_weight: None,
                transform: None,
            };
            c.text(yregion, t);
            proof {
                assert(c.frames() =~= old(c).frames() + self.spec_ylabels(i + 1 as int));
            }
            i = i + 1;
        }
    }

    /// One owned tick label out of computed axis values.
    fn clone_label(&self, av: &AxisValues, idx: usize) -> (s: String)
        requires
            idx < av.data@.len(),
        ensures
            s@ == av.data@[idx as int]@,
    {
        av.data[idx].clone()
    }

    /// Emits the value tick labels along the bottom edge.
    fn render_xlabels(&self, c: &mut Canvas, xregion: Region, av: &AxisValues, aw: i64, split: usize)
        requires
            self.spec_valid(),
            xregion == self.spec_xregion(),
            old(c).width == self.width,
            old(c).height == self.height,
            split as int == self.spec_split(),
            aw as int == self.spec_axis_width(),
            0 <= aw <= 1_000_000,
            av.data@.len() == split + 1,
            forall|q: int|
                0 <= q < av.data@.len() ==> (#[trigger] av.data@[q])@ == spec_axis_label(
                    self.spec_fmt(),
                    self.spec_lo() + q * self.spec_step(),
                ),
        ensures
            final(c).width == old(c).width,
            final(c).height == old(c).height,
            final(c).frames() == old(c).frames() + self.spec_xlabels(self.spec_split() + 1),
    {
        let split_i: i64 = split as i64;
        let mut i: usize = 0;
        while i <= split
            invariant
                i <= split + 1,
                self.spec_valid(),
                xregion == self.spec_xregion(),
                c.width == self.width,
                c.height == self.height,
                split_i == split,
                split as int == self.spec_split(),
                1 <= split <= 1_000_000,
                aw as int == self.spec_axis_width(),
                0 <= aw <= 1_000_000,
                av.data@.len() == split + 1,
                forall|q: int|
                    0 <= q < av.data@.len() ==> (#[trigger] av.data@[q])@ == spec_axis_label(
                        self.spec_fmt(),
                        self.spec_lo() + q * self.spec_step(),
                    ),
                c.frames() == old(c).frames() + self.spec_xlabels(i as int),
            decreases split + 1 - i,
        {
            let label = self.clone_label(av, i);
            proof {
                assert(0 <= aw * (i as int) <= 1_000_001_000_000) by (nonlinear_arith)
                    requires
                        0 <= aw <= 1_000_000,
                        0 <= i <= 1_000_001,
                ;
                assert((aw as int) * (i as int) / (split as int) <= aw) by (nonlinear_arith)
                    requires
                        0 <= (i as int) <= split as int,
                        1 <= split as int,
                        0 <= aw,
                ;
            }
            let x = div_nn(aw * (i as i64), split_i);
            let t = Text {
                text: label,
                font_family: self.font_family.clone(),
                font_size: self.axis_font_size,
                fill: Some(self.axis_font_color),
                x: Some(x),
                y: Some(self.axis_font_size + LABEL_GAP),
                dx: None,
                dy: None,
                font_weight: None,
                transform: None,
            };
            c.text(xregion, t);
            proof {
                assert(c.frames() =~= old(c).frames() + self.spec_xlabels(i + 1 as int));
            }
            i = i + 1;
        }
    }

    /// Emits one rectangle per value of every series.
    #[verifier::rlimit(60)]
    fn render_bars(&self, c: &mut Canvas, plot: Region, av: &AxisValues, unit: i64, bh: i64, ah: i64, aw: i64)
        requires
            self.spec_valid(),
            1 <= self.spec_m(),
            plot == self.spec_plot(),
            old(c).width == self.width,
            old(c).height == self.height,
            unit as int == self.spec_unit(),
            0 <= unit <= 1_000_000,
            bh as int == self.spec_bar_height(),
            0 <= bh <= 1_000_000,
            ah as int == self.spec_axis_height(),
            0 <= ah <= 1_000_000,
            aw as int == self.spec_axis_width(),
            0 <= aw <= 1_000_000,
            av.bounded(),
            av.min as int == self.spec_lo(),
            av.max as int == self.spec_hi(),
        ensures
            final(c).width == old(c).width,
            final(c).height == old(c).height,
            final(c).frames() == old(c).frames() + self.spec_bars_upto(
                self.series_list@.len() as int,
            ),
    {
        let n = self.series_list.len();
        let mut si: usize = 0;
        while si < n
            invariant
                si <= n,
                n == self.series_list@.len(),
                n <= 100,
                self.spec_valid(),
                1 <= self.spec_m(),
                plot == self.spec_plot(),
                c.width == self.width,
                c.height == self.height,
                unit as int == self.spec_unit(),
                0 <= unit <= 1_000_000,
                bh as int == self.spec_bar_height(),
                0 <= bh <= 1_000_000,
                ah as int == self.spec_axis_height(),
                0 <= ah <= 1_000_000,
                aw as int == self.spec_axis_width(),
                0 <= aw <= 1_000_000,
                av.bounded(),
                av.min as int == self.spec_lo(),
                av.max as int == self.spec_hi(),
                c.frames() == old(c).frames() + self.spec_bars_upto(si as int),
            decreases n - si,
        {
            let s = &self.series_list[si];
            let color = series_color(&self.series_colors, &s.index, si);
            let dlen = s.data.len();
            proof {
                assert(spec_series_ok(self.series_list@[si as int], self.spec_m()));
            }
            let mut j: usize = 0;
            while j < dlen
                invariant
                    j <= dlen,
                    dlen == s.data@.len(),
                    0 <= si < self.series_list@.len(),
                    si < 100,
                    s == self.series_list@[si as int],
                    dlen as int <= self.spec_m(),
                    1 <= self.spec_m(),
                    self.spec_valid(),
                    plot == self.spec_plot(),
                    c.width == self.width,
                    c.height == self.height,
                    unit as int == self.spec_unit(),
                    0 <= unit <= 1_000_000,
                    bh as int == self.spec_bar_height(),
                    0 <= bh <= 1_000_000,
                    ah as int == self.spec_axis_height(),
                    0 <= ah <= 1_000_000,
                    aw as int == self.spec_axis_width(),
                    0 <= aw <= 1_000_000,
                    av.bounded(),
                    av.min as int == self.spec_lo(),
                    av.max as int == self.spec_hi(),
                    color == spec_series_color(self.series_colors@, s.index, si as int),
                    c.frames() == old(c).frames() + self.spec_bars_upto(si as int)
                        + self.spec_bar_series_frames(si as int, j as int),
                decreases dlen - j,
            {
                let v = s.data[j];
                let vc = if v < av.min {
                    av.min
                } else if v > av.max {
                    av.max
                } else {
                    v
                };
                let len = av.offset(vc, aw);
                proof {
                    assert(0 <= unit * (dlen as int - 1 - j as int) <= ah) by (nonlinear_arith)
                        requires
                            0 <= (j as int) < dlen as int,
                            dlen as int <= self.spec_m(),
                            1 <= self.spec_m(),
                            0 <= ah,
                            unit == ah as int / self.spec_m(),
                    ;
                    assert(0 <= (si as int) * (bh + BAR_GAP) <= 100 * 1_000_030)
                        by (nonlinear_arith)
                        requires
                            0 <= (si as int) <= 100,
                            0 <= bh <= 1_000_000,
                    ;
                }
                let top = unit * ((dlen - 1 - j) as i64) + BAR_MARGIN + (si as i64) * (bh
                    + BAR_GAP);
                c.rect(
                    plot,
                    Rect {
                        color: None,
                        fill: Some(color),
                        left: 0,
                        top,
                        width: len,
                        height: bh,
                        rx: None,
                        ry: None,
                    },
                );
                proof {
                    assert(c.frames() =~= old(c).frames() + self.spec_bars_upto(si as int)
                        + self.spec_bar_series_frames(si as int, j + 1 as int));
                }
                j = j + 1;
            }
            proof {
                assert(c.frames() =~= old(c).frames() + self.spec_bars_upto(si + 1 as int));
            }
            si = si + 1;
        }
    }

    /// Emits the per-bar value labels of every series with labels shown.
    #[verifier::rlimit(60)]
    fn render_value_labels(&self, c: &mut Canvas, plot: Region, av: &AxisValues, unit: i64, bh: i64, ah: i64, aw: i64)
        requires
            self.spec_valid(),
            1 <= self.spec_m(),
            plot == self.spec_plot(),
            old(c).width == self.width,
            old(c).height == self.height,
            unit as int == self.spec_unit(),
            0 <= unit <= 1_000_000,
            bh as int == self.spec_bar_height(),
            0 <= bh <= 1_000_000,
            ah as int == self.spec_axis_height(),
            0 <= ah <= 1_000_000,
            aw as int == self.spec_axis_width(),
            0 <= aw <= 1_000_000,
            av.bounded(),
            av.min as int == self.spec_lo(),
            av.max as int == self.spec_hi(),
        ensures
            final(c).width == old(c).width,
            final(c).height == old(c).height,
            final(c).frames() == old(c).frames() + self.spec_value_labels_upto(
                self.series_list@.len() as int,
            ),
    {
        let n = self.series_list.len();
        let half_bh = div_nn(bh, 2);
        let mut si: usize = 0;
        while si < n
            invariant
                si <= n,
                n == self.series_list@.len(),
                n <= 100,
                self.spec_valid(),
                1 <= self.spec_m(),
                plot == self.spec_plot(),
                c.width == self.width,
                c.height == self.height,
                unit as int == self.spec_unit(),
                0 <= unit <= 1_000_000,
                bh as int == self.spec_bar_height(),
                0 <= bh <= 1_000_000,
                half_bh == self.spec_bar_height() / 2,
                0 <= half_bh <= 1_000_000,
                ah as int == self.spec_axis_height(),
                0 <= ah <= 1_000_000,
                aw as int == self.spec_axis_width(),
                0 <= aw <= 1_000_000,
                av.bounded(),
                av.min as int == self.spec_lo(),
                av.max as int == self.spec_hi(),
                c.frames() == old(c).frames() + self.spec_value_labels_upto(si as int),
            decreases n - si,
        {
            let s = &self.series_list[si];
            if s.label_show {
                let dlen = s.data.len();
                proof {
                    assert(spec_series_ok(self.series_list@[si as int], self.spec_m()));
                }
                let mut j: usize = 0;
                while j < dlen
                    invariant
                        j <= dlen,
                        dlen == s.data@.len(),
                        0 <= si < self.series_list@.len(),
                        si < 100,
                        s == self.series_list@[si as int],
                        s.label_show,
                        dlen as int <= self.spec_m(),
                        1 <= self.spec_m(),
                        self.spec_valid(),
                        plot == self.spec_plot(),
                        c.width == self.width,
                        c.height == self.height,
                        unit as int == self.spec_unit(),
                        0 <= unit <= 1_000_000,
                        bh as int == self.spec_bar_height(),
                        0 <= bh <= 1_000_000,
                        half_bh == self.spec_bar_height() / 2,
                        0 <= half_bh <= 1_000_000,
                        ah as int == self.spec_axis_height(),
                        0 <= ah <= 1_000_000,
                        aw as int == self.spec_axis_width(),
                        0 <= aw <= 1_000_000,
                        av.bounded(),
                        av.min as int == self.spec_lo(),
                        av.max as int == self.spec_hi(),
                        c.frames() == old(c).frames() + self.spec_value_labels_upto(si as int)
                            + self.spec_value_labels_series(si as int, j as int),
                    decreases dlen - j,
                {
                    let v = s.data[j];
                    let vc = if v < av.min {
                        av.min
                    } else if v > av.max {
                        av.max
                    } else {
                        v
                    };
                    let len = av.offset(vc, aw);
                    proof {
                        assert(0 <= unit * (dlen as int - 1 - j as int) <= ah)
                            by (nonlinear_arith)
                            requires
                                0 <= (j as int) < dlen as int,
                                dlen as int <= self.spec_m(),
                                1 <= self.spec_m(),
                                0 <= ah,
                                unit == ah as int / self.spec_m(),
                        ;
                        assert(0 <= (si as int) * (bh + BAR_GAP) <= 100 * 1_000_030)
                            by (nonlinear_arith)
                            requires
                                0 <= (si as int) <= 100,
                                0 <= bh <= 1_000_000,
                        ;
                    }
                    let top = unit * ((dlen - 1 - j) as i64) + BAR_MARGIN + (si as i64) * (bh
                        + BAR_GAP);
                    let t = Text {
                        text: format_tenths(v),
                        font_family: self.font_family.clone(),
                        font_size: self.series_label_font_size,
                        fill: Some(self.series_label_font_color),
                        x: Some(len),
                        y: Some(top + half_bh),
                        dx: Some(30),
                        dy: Some(div_nn(self.series_label_font_size, 2) - 20),
                        font_weight: None,
                        transform: None,
                    };
                    c.text(plot, t);
                    proof {
                        assert(c.frames() =~= old(c).frames() + self.spec_value_labels_upto(
                            si as int,
                        ) + self.spec_value_labels_series(si as int, j + 1 as int));
                    }
                    j = j + 1;
                }
            }
            proof {
                assert(c.frames() =~= old(c).frames() + self.spec_value_labels_upto(
                    si + 1 as int,
                ));
            }
            si = si + 1;
        }
    }

    /// Renders the chart into one document string.  Succeeds exactly on
    /// configurations within the renderer's working ranges.
    #[verifier::rlimit(100)]
    pub fn svg(&self) -> (r: Result<String, RenderError>)
        ensures
            self.spec_valid() ==> r is Ok && r.unwrap()@ == self.spec_svg(),
            !self.spec_valid() ==> r == Err::<String, RenderError>(RenderError::InvalidConfig),
    {
        if !self.validate() {
            return Err(RenderError::InvalidConfig);
        }
        let ghost n_g = self.series_list@.len() as int;
        let mut c = Canvas::new(self.width, self.height);
        let root = c.root();

        // Background.
        c.rect(
            root,
            Rect {
                color: None,
                fill: Some(self.background_color),
                left: 0,
                top: 0,
                width: self.width,
                height: self.height,
                rx: None,
                ry: None,
            },
        );
        proof {
            assert(c.frames() =~= seq![self.spec_bg_frame()]);
        }

        let inner = root.child(self.margin);
        proof {
            assert(inner == self.spec_inner());
        }

        // Title and subtitle.
        self.render_title(&mut c, inner);
        proof {
            assert(c.frames() =~= seq![self.spec_bg_frame()] + self.spec_title_frames());
        }

        // Legend.
        self.render_legend(&mut c, inner);
        let ghost legend_done = seq![self.spec_bg_frame()] + self.spec_title_frames()
            + self.spec_legend_frames(n_g);
        proof {
            assert(c.frames() =~= legend_done);
        }

        // Derived layout quantities.
        let title_h: i64 = self.title_band_height();
        let legend_h: i64 = if self.series_list.len() == 0 {
            0
        } else {
            self.legend_font_size + TITLE_GAP
        };
        let top_off: i64 = if title_h >= legend_h {
            title_h
        } else {
            legend_h
        };
        assert(top_off as int == self.spec_top_offset());
        let gutter = self.measure_gutter();
        let ah = inner.height - top_off - self.x_axis_height;
        let aw = inner.width - gutter;
        assert(ah as int == self.spec_axis_height());
        assert(aw as int == self.spec_axis_width());
        let split: usize = if self.value_split_number == 0 {
            6
        } else {
            self.value_split_number
        };
        assert(split as int == self.spec_split());

        // With no category slots, only the minimal document remains.
        let m = self.x_axis_data.len();
        if m == 0 {
            proof {
                assert(c.frames() =~= self.spec_frames());
            }
            let out = c.svg();
            return Ok(out);
        }
        let unit = div_nn(ah, m as i64);
        assert(unit as int == self.spec_unit());

        // Category axis.
        let yregion = inner.child(MarginBox { left: 0, top: top_off, right: 0, bottom: 0 });
        proof {
            assert(yregion == self.spec_yregion());
        }
        c.line(
            yregion,
            Line {
                color: Some(self.axis_stroke_color),
                stroke_width: AXIS_STROKE_WIDTH,
                left: gutter,
                top: 0,
                right: gutter,
                bottom: ah,
            },
        );
        let ghost yline_done = legend_done + seq![self.spec_yaxis_line_frame()];
        proof {
            assert(c.frames() =~= yline_done);
        }
        self.render_ylabels(&mut c, yregion, unit, ah);
        let ghost ylabels_done = yline_done + self.spec_ylabels(self.spec_m());
        proof {
            assert(c.frames() =~= ylabels_done);
        }

        // Value axis.
        let values = self.collect_values();
        let av = get_axis_values(&values, self.value_split_number, &self.value_formatter);
        proof {
            assert(av.min as int == self.spec_lo());
            assert(av.max as int == self.spec_hi());
        }
        let xregion = inner.child(
            MarginBox { left: gutter, top: top_off + ah, right: 0, bottom: 0 },
        );
        proof {
            assert(xregion == self.spec_xregion());
        }
        c.line(
            xregion,
            Line {
                color: Some(self.axis_stroke_color),
                stroke_width: AXIS_STROKE_WIDTH,
                left: 0,
                top: 0,
                right: aw,
                bottom: 0,
            },
        );
        let ghost xline_done = ylabels_done + seq![self.spec_xaxis_line_frame()];
        proof {
            assert(c.frames() =~= xline_done);
        }
        self.render_xlabels(&mut c, xregion, &av, aw, split);
        let ghost xlabels_done = xline_done + self.spec_xlabels(self.spec_split() + 1);
        proof {
            assert(c.frames() =~= xlabels_done);
        }

        // Grid.
        let plot = inner.child(
            MarginBox { left: gutter, top: top_off, right: 0, bottom: 0 },
        );
        proof {
            assert(plot == self.spec_plot());
        }
        let mut hidden_v: Vec<usize> = Vec::new();
        hidden_v.push(0);
        let g = Grid {
            left: 0,
            top: 0,
            right: aw,
            bottom: ah,
            color: Some(self.grid_stroke_color),
            stroke_width: self.grid_stroke_width,
            verticals: split,
            hidden_verticals: hidden_v,
            horizontals: 0,
            hidden_horizontals: Vec::new(),
        };
        proof {
            assert(spec_translate_grid_params(g, plot).hidden_verticals =~= seq![0usize]);
            assert(spec_translate_grid_params(g, plot).hidden_horizontals =~= Seq::<
                usize,
            >::empty());
        }
        c.grid(plot, g);
        let ghost grid_done = xlabels_done + seq![self.spec_grid_frame()];
        proof {
            assert(spec_grid_svg(spec_translate_grid_params(g, plot)) == self.spec_grid_frame());
            assert(c.frames() =~= grid_done);
        }

        // Bars.
        let n = self.series_list.len() as i64;
        let bh: i64 = if n <= 0 {
            0
        } else {
            let room = unit - 2 * BAR_MARGIN - (n - 1) * BAR_GAP;
            if room < n {
                1
            } else {
                div_nn(room, n)
            }
        };
        assert(bh as int == self.spec_bar_height());
        self.render_bars(&mut c, plot, &av, unit, bh, ah, aw);
        let ghost bars_done = grid_done + self.spec_bars_upto(n_g);
        proof {
            assert(c.frames() =~= bars_done);
        }

        // Per-bar value labels.
        self.render_value_labels(&mut c, plot, &av, unit, bh, ah, aw);
        proof {
            assert(c.frames() =~= self.spec_frames());
        }
        let out = c.svg();
        Ok(out)
    }

    /// A horizontal bar chart over the given series and category labels,
    /// styled from the named theme, with each series assigned its
    /// position as index.
    pub fn new_with_theme(series_list: Vec<Series>, x_axis_data: Vec<String>, theme: &str) -> (b: HorizontalBarChart)
        ensures
            b.series_list@.len() == series_list@.len(),
            forall|i: int|
                0 <= i < series_list@.len() ==> b.series_list@[i] == (Series {
                    index: Some(i as usize),
                    ..series_list@[i]
                }),
            b.x_axis_data == x_axis_data,
            b.width == 6000,
            b.height == 4000,
            b.margin == (MarginBox { left: 100, top: 100, right: 100, bottom: 100 }),
            b.title_text@ == Seq::<char>::empty(),
            b.title_font_size == 180,
            b.title_font_weight is None,
            b.sub_title_text@ == Seq::<char>::empty(),
            b.sub_title_font_size == 140,
            b.sub_title_align == Align::Center,
            b.legend_font_size == 140,
            b.axis_font_size == 140,
            b.series_label_font_size == 140,
            b.x_axis_height == 250,
            b.value_split_number == 6,
            b.value_formatter is None,
            b.grid_stroke_width == 10,
            b.title_align == Align::Center,
            b.legend_category == LegendCategory::Normal,
            b.font_family@ == "Arial"@,
            b.is_light == (theme@ != "dark"@),
            b.series_colors@ == crate::theme::spec_palette(),
            theme@ != "dark"@ ==> b.background_color == (Color {
                r: 255,
                g: 255,
                b: 255,
                a: 255,
            }) && b.title_font_color == (Color { r: 0x46, g: 0x46, b: 0x4B, a: 255 })
                && b.legend_font_color == (Color { r: 0x46, g: 0x46, b: 0x4B, a: 255 })
                && b.axis_stroke_color == (Color { r: 0x6E, g: 0x71, b: 0x79, a: 255 })
                && b.axis_font_color == (Color { r: 0x70, g: 0x70, b: 0x70, a: 255 })
                && b.series_label_font_color == (Color { r: 0x70, g: 0x70, b: 0x70, a: 255 })
                && b.grid_stroke_color == (Color { r: 0xE0, g: 0xE6, b: 0xF1, a: 255 }),
            theme@ == "dark"@ ==> b.background_color == (Color {
                r: 0x10,
                g: 0x0C,
                b: 0x2A,
                a: 255,
            }) && b.title_font_color == (Color { r: 0xEE, g: 0xEE, b: 0xEE, a: 255 })
                && b.legend_font_color == (Color { r: 0xEE, g: 0xEE, b: 0xEE, a: 255 })
                && b.axis_stroke_color == (Color { r: 0x6E, g: 0x71, b: 0x79, a: 255 })
                && b.axis_font_color == (Color { r: 0xCC, g: 0xCC, b: 0xCC, a: 255 })
                && b.series_label_font_color == (Color { r: 0xCC, g: 0xCC, b: 0xCC, a: 255 })
                && b.grid_stroke_color == (Color { r: 0x40, g: 0x44, b: 0x4D, a: 255 }),
    {
        let t = crate::theme::get_theme(theme);
        let mut rest = series_list;
        let mut indexed: Vec<Series> = Vec::new();
        let ghost orig = rest@;
        let total = rest.len();
        assert(orig.len() == total);
        let mut i: usize = 0;
        while rest.len() > 0
            invariant
                i == indexed@.len(),
                orig.len() <= usize::MAX,
                orig.len() == i + rest@.len(),
                rest@ == orig.skip(i as int),
                forall|k: int|
                    0 <= k < i ==> indexed@[k] == (Series {
                        index: Some(k as usize),
                        ..orig[k]
                    }),
            decreases rest@.len(),
        {
            let mut s = rest.remove(0);
            s.index = Some(i);
            indexed.push(s);
            proof {
                assert(rest@ =~= orig.skip(i + 1 as int));
            }
            i = i + 1;
        }
        proof {
            assert(indexed@.len() == orig.len());
        }
        HorizontalBarChart {
            width: 6000,
            height: 4000,
            margin: MarginBox { left: 100, top: 100, right: 100, bottom: 100 },
            series_list: indexed,
            font_family: "Arial".to_owned(),
            background_color: t.background_color,
            is_light: t.is_light,
            title_text: String::new(),
            title_font_size: 180,
            title_font_color: t.title_font_color,
            title_font_weight: None,
            title_align: Align::Center,
            sub_title_text: String::new(),
            sub_title_font_size: 140,
            sub_title_font_color: t.axis_font_color,
            sub_title_align: Align::Center,
            legend_font_size: 140,
            legend_font_color: t.legend_font_color,
            legend_category: LegendCategory::Normal,
            x_axis_data,
            x_axis_height: 250,
            axis_stroke_color: t.axis_stroke_color,
            axis_font_size: 140,
            axis_font_color: t.axis_font_color,
            value_split_number: 6,
            value_formatter: None,
            grid_stroke_color: t.grid_stroke_color,
            grid_stroke_width: 10,
            series_colors: t.series_colors,
            series_label_font_color: t.axis_font_color,
            series_label_font_size: 140,
        }
    }

    /// A horizontal bar chart styled from the default (light) theme.
    pub fn new(series_list: Vec<Series>, x_axis_data: Vec<String>) -> (b: HorizontalBarChart)
        ensures
            b.series_list@.len() == series_list@.len(),
            forall|i: int|
                0 <= i < series_list@.len() ==> b.series_list@[i] == (Series {
                    index: Some(i as usize),
                    ..series_list@[i]
                }),
            b.x_axis_data == x_axis_data,
            b.width == 6000,
            b.height == 4000,
            b.is_light == true,
            b.series_colors@ == crate::theme::spec_palette(),
    {
        let name = crate::theme::get_default_theme();
        proof {
            reveal_strlit("light");
            reveal_strlit("dark");
            assert("light"@.len() == 5 && "dark"@.len() == 4);
        }
        HorizontalBarChart::new_with_theme(series_list, x_axis_data, name.as_str())
    }
}


/// Two renders of one configuration are byte-identical: the rendered
/// document is a function of the configuration value alone.
pub proof fn lemma_render_deterministic(a: HorizontalBarChart, b: HorizontalBarChart)
    requires
        a == b,
    ensures
        a.spec_svg() == b.spec_svg(),
{
}

} // verus!

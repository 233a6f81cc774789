use vstd::prelude::*;

verus! {

/// Size of the UI elements below the plot, in pixels.
pub const PLOT_CONTROLS_HEIGHT: i32 = 100;

/// `x` clamped into `[lo, hi]`.
pub open spec fn clamp_int(x: int, lo: int, hi: int) -> int {
    if x < lo {
        lo
    } else if x > hi {
        hi
    } else {
        x
    }
}

/// How the plot and the tabs share the screen, in pixels.
pub struct ScreenLayout {
    /// Wider than high: plot and tabs side by side; else stacked.
    pub is_landscape: bool,
    pub plot_width: i32,
    pub tabs_width: i32,
    /// The height of a tab's content.
    pub tabs_height: i32,
    /// The widest the page may be, when plot and tabs stand side by side.
    pub body_max_width: Option<i32>,
}

/// The plot's width for a screen: half the screen minus the controls when side by side,
/// the whole width when stacked, and never below 300 or above 800 pixels.
pub open spec fn plot_width_for(screen_width: i32, screen_height: i32) -> int {
    if screen_height < screen_width {
        clamp_int(screen_width / 2 - PLOT_CONTROLS_HEIGHT, 300, 800)
    } else {
        clamp_int(screen_width as int, 300, 800)
    }
}

/// The plot takes half the screen's width minus the controls when the screen is wider
/// than high, and the whole width otherwise, kept between 300 and 800 pixels.
pub proof fn law_plot_width(screen_width: i32, screen_height: i32)
    ensures
        300 <= plot_width_for(screen_width, screen_height) <= 800,
        screen_height < screen_width && 300 <= screen_width / 2 - 100 <= 800 ==> plot_width_for(
            screen_width,
            screen_height,
        ) == screen_width / 2 - 100,
        screen_height < screen_width && screen_width / 2 - 100 < 300 ==> plot_width_for(
            screen_width,
            screen_height,
        ) == 300,
        screen_height < screen_width && screen_width / 2 - 100 > 800 ==> plot_width_for(
            screen_width,
            screen_height,
        ) == 800,
        screen_height >= screen_width && 300 <= screen_width <= 800 ==> plot_width_for(
            screen_width,
            screen_height,
        ) == screen_width,
        screen_height >= screen_width && screen_width < 300 ==> plot_width_for(
            screen_width,
            screen_height,
        ) == 300,
        screen_height >= screen_width && screen_width > 800 ==> plot_width_for(
            screen_width,
            screen_height,
        ) == 800,
{
}

/// Lays out plot and tabs on a screen of the given size.
pub fn screen_layout(screen_width: i32, screen_height: i32) -> (r: ScreenLayout)
    requires
        screen_height < screen_width || screen_height - plot_width_for(screen_width, screen_height)
            - PLOT_CONTROLS_HEIGHT >= i32::MIN,
    ensures
        r.is_landscape == (screen_height < screen_width),
        r.plot_width == plot_width_for(screen_width, screen_height),
        300 <= r.plot_width <= 800,
        r.is_landscape ==> r.tabs_width == r.plot_width + PLOT_CONTROLS_HEIGHT / 2,
        r.is_landscape ==> r.tabs_height == r.tabs_width,
        r.is_landscape ==> r.body_max_width == Some((2 * r.tabs_width + 20) as i32),
        !r.is_landscape ==> r.tabs_width == r.plot_width,
        !r.is_landscape ==> r.tabs_height == (if screen_height - r.plot_width - PLOT_CONTROLS_HEIGHT
            < 100 {
            100
        } else {
            screen_height - r.plot_width - PLOT_CONTROLS_HEIGHT
        }),
        !r.is_landscape ==> r.body_max_width is None,
{
    let is_landscape = screen_height < screen_width;
    if is_landscape {
        let half = screen_width / 2 - PLOT_CONTROLS_HEIGHT;
        let plot_width = if half < 300 {
            300
        } else if half > 800 {
            800
        } else {
            half
        };
        let tabs_width = plot_width + (PLOT_CONTROLS_HEIGHT / 2);
        ScreenLayout {
            is_landscape,
            plot_width,
            tabs_width,
            tabs_height: tabs_width,
            body_max_width: Some(2 * tabs_width + 20),
        }
    } else {
        let plot_width = if screen_width < 300 {
            300
        } else if screen_width > 800 {
            800
        } else {
            screen_width
        };
        let rest = screen_height - plot_width - PLOT_CONTROLS_HEIGHT;
        let tabs_height = if rest < 100 {
            100
        } else {
            rest
        };
        ScreenLayout {
            is_landscape,
            plot_width,
            tabs_width: plot_width,
            tabs_height,
            body_max_width: None,
        }
    }
}

/// The names of the quantities that the plot's axes can show, in the order of their
/// indices.
pub open spec fn axis_labels() -> Seq<Seq<char>> {
    seq![
        "Time"@,
        "Wood"@,
        "Gold"@,
        "Energy"@,
        "Miner"@,
        "Lumberjack"@,
        "Recruiter"@,
        "Monster"@,
        "Factory"@,
        "Furnace"@,
        "Bank"@,
    ]
}

/// The number of quantities that the plot's axes can show.
pub const AXIS_LABEL_COUNT: u8 = 11;

/// The name of the quantity with the given index.
pub fn axis_label(index: u8) -> (r: Option<&'static str>)
    ensures
        index < AXIS_LABEL_COUNT ==> (r matches Some(s) && s@ == axis_labels()[index as int]),
        index >= AXIS_LABEL_COUNT ==> r is None,
{
    proof {
        reveal_strlit("Time");
        reveal_strlit("Wood");
        reveal_strlit("Gold");
        reveal_strlit("Energy");
        reveal_strlit("Miner");
        reveal_strlit("Lumberjack");
        reveal_strlit("Recruiter");
        reveal_strlit("Monster");
        reveal_strlit("Factory");
        reveal_strlit("Furnace");
        reveal_strlit("Bank");
    }
    match index {
        0 => Some("Time"),
        1 => Some("Wood"),
        2 => Some("Gold"),
        3 => Some("Energy"),
        4 => Some("Miner"),
        5 => Some("Lumberjack"),
        6 => Some("Recruiter"),
        7 => Some("Monster"),
        8 => Some("Factory"),
        9 => Some("Furnace"),
        10 => Some("Bank"),
        _ => None,
    }
}

/// The index of the quantity named `value`: the first one with that name, or 0 when no
/// quantity has it.
pub fn axis_index(value: &String) -> (r: u8)
    ensures
        r < AXIS_LABEL_COUNT,
        axis_labels().contains(value@) ==> axis_labels()[r as int] == value@ && forall|j: int|
            0 <= j < r ==> axis_labels()[j] != value@,
        !axis_labels().contains(value@) ==> r == 0,
{
    let mut i: u8 = 0;
    while i < AXIS_LABEL_COUNT
        invariant
            i <= AXIS_LABEL_COUNT,
            forall|j: int| 0 <= j < i ==> axis_labels()[j] != value@,
        decreases AXIS_LABEL_COUNT - i,
    {
        let label = axis_label(i);
        if let Some(s) = label {
            let owned = s.to_owned();
            if *value == owned {
                return i;
            }
        }
        i += 1;
    }
    proof {
        assert forall|k: int| 0 <= k < axis_labels().len() implies axis_labels()[k] != value@ by {}
    }
    0
}

} // verus!

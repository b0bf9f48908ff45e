//! The welcome page: a banner, a headline, a feature list, and a
//! three-page carousel introducing the application.

use vstd::prelude::*;

verus! {

/// The bullet shown before each feature line.
pub open spec fn spec_bullet(text: Seq<char>) -> Seq<char> {
    "• "@ + text
}

/// A feature line as displayed: the text behind a bullet.
pub fn bullet_label(text: &str) -> (r: String)
    ensures
        r@ == spec_bullet(text@),
{
    let mut s = String::from_str("• ");
    s.append(text);
    s
}

/// The features listed on the welcome page.
pub open spec fn spec_welcome_features() -> Seq<Seq<char>> {
    seq!["AI聊天助手"@, "文件处理工具"@, "系统信息查看"@, "实用小工具集合"@]
}

/// One page of the welcome carousel.
#[derive(Debug, Clone)]
pub struct CarouselPage {
    /// Heading of the page.
    pub title: String,
    /// Body text of the page.
    pub description: String,
}

/// Mathematical image of a [`CarouselPage`].
pub struct CarouselPageModel {
    pub title: Seq<char>,
    pub description: Seq<char>,
}

impl View for CarouselPage {
    type V = CarouselPageModel;

    open spec fn view(&self) -> CarouselPageModel {
        CarouselPageModel { title: self.title@, description: self.description@ }
    }
}

/// The three carousel pages, in order.
pub open spec fn spec_carousel_pages() -> Seq<CarouselPageModel> {
    seq![
        CarouselPageModel {
            title: "AI聊天助手"@,
            description: "与AI进行智能对话，获取您需要的信息和帮助"@,
        },
        CarouselPageModel {
            title: "文件处理工具"@,
            description: "强大的文件处理功能，支持多种格式转换和批量操作"@,
        },
        CarouselPageModel {
            title: "系统信息查看"@,
            description: "全面的系统信息监控，实时了解设备状态"@,
        },
    ]
}

/// How long, in milliseconds, the carousel's reveal transition runs.
pub const CAROUSEL_REVEAL_DURATION_MS: u32 = 300;

/// The welcome page's contents.
pub struct WelcomePage {
    banner_title: String,
    banner_button_label: String,
    title: String,
    description: String,
    features_title: String,
    features: Vec<String>,
    start_button_label: String,
    carousel_pages: Vec<CarouselPage>,
}

impl WelcomePage {
    /// Text of the banner across the top.
    pub closed spec fn banner_title_text(&self) -> Seq<char> {
        self.banner_title@
    }

    /// Label of the banner's button.
    pub closed spec fn banner_button_text(&self) -> Seq<char> {
        self.banner_button_label@
    }

    /// The page's headline.
    pub closed spec fn title_text(&self) -> Seq<char> {
        self.title@
    }

    /// The line under the headline.
    pub closed spec fn description_text(&self) -> Seq<char> {
        self.description@
    }

    /// Heading over the feature list.
    pub closed spec fn features_title_text(&self) -> Seq<char> {
        self.features_title@
    }

    /// The feature lines, without their bullets.
    pub closed spec fn feature_texts(&self) -> Seq<Seq<char>> {
        self.features@.map_values(|s: String| s@)
    }

    /// Label of the start button.
    pub closed spec fn start_button_text(&self) -> Seq<char> {
        self.start_button_label@
    }

    /// The carousel pages, in order.
    pub closed spec fn carousel(&self) -> Seq<CarouselPageModel> {
        self.carousel_pages@.map_values(|p: CarouselPage| p@)
    }

    /// The welcome page with all of its fixed contents.
    pub fn new() -> (r: WelcomePage)
        ensures
            r.banner_title_text() == "欢迎使用 QTools! 这是一个功能强大的工具集"@,
            r.banner_button_text() == "了解更多"@,
            r.title_text() == "欢迎使用 QTools"@,
            r.description_text() == "一个基于 Rust 和 GTK 的实用工具集"@,
            r.features_title_text() == "主要功能"@,
            r.feature_texts() == spec_welcome_features(),
            r.start_button_text() == "开始使用"@,
            r.carousel() == spec_carousel_pages(),
    {
        let mut features: Vec<String> = Vec::new();
        features.push(String::from_str("AI聊天助手"));
        features.push(String::from_str("文件处理工具"));
        features.push(String::from_str("系统信息查看"));
        features.push(String::from_str("实用小工具集合"));

        let mut carousel_pages: Vec<CarouselPage> = Vec::new();
        carousel_pages.push(CarouselPage {
            title: String::from_str("AI聊天助手"),
            description: String::from_str("与AI进行智能对话，获取您需要的信息和帮助"),
        });
        carousel_pages.push(CarouselPage {
            title: String::from_str("文件处理工具"),
            description: String::from_str("强大的文件处理功能，支持多种格式转换和批量操作"),
        });
        carousel_pages.push(CarouselPage {
            title: String::from_str("系统信息查看"),
            description: String::from_str("全面的系统信息监控，实时了解设备状态"),
        });

        let r = WelcomePage {
            banner_title: String::from_str("欢迎使用 QTools! 这是一个功能强大的工具集"),
            banner_button_label: String::from_str("了解更多"),
            title: String::from_str("欢迎使用 QTools"),
            description: String::from_str("一个基于 Rust 和 GTK 的实用工具集"),
            features_title: String::from_str("主要功能"),
            features,
            start_button_label: String::from_str("开始使用"),
            carousel_pages,
        };
        proof {
            assert(r.feature_texts() =~= spec_welcome_features());
            assert(r.carousel() =~= spec_carousel_pages());
        }
        r
    }

    /// Text of the banner across the top.
    pub fn banner_title(&self) -> (r: &String)
        ensures
            r@ == self.banner_title_text(),
    {
        &self.banner_title
    }

    /// The page's headline.
    pub fn title(&self) -> (r: &String)
        ensures
            r@ == self.title_text(),
    {
        &self.title
    }

    /// The line under the headline.
    pub fn description(&self) -> (r: &String)
        ensures
            r@ == self.description_text(),
    {
        &self.description
    }

    /// The feature lines, without their bullets.
    pub fn features(&self) -> (r: &Vec<String>)
        ensures
            r@.map_values(|s: String| s@) == self.feature_texts(),
    {
        &self.features
    }

    /// The carousel pages, in order.
    pub fn carousel_pages(&self) -> (r: &Vec<CarouselPage>)
        ensures
            r@.map_values(|p: CarouselPage| p@) == self.carousel(),
    {
        &self.carousel_pages
    }

    /// Label of the start button.
    pub fn start_button_label(&self) -> (r: &String)
        ensures
            r@ == self.start_button_text(),
    {
        &self.start_button_label
    }

    /// The displayed feature line at `i`, with its bullet.
    pub fn feature_label_at(&self, i: usize) -> (r: String)
        requires
            i < self.feature_texts().len(),
        ensures
            r@ == spec_bullet(self.feature_texts()[i as int]),
    {
        bullet_label(self.features[i].as_str())
    }
}

} // verus!

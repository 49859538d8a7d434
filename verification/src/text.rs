//! The text bundle: a fixed, process-wide immutable mapping from locale and
//! UI string key to localized text. The key set is closed, so every key that
//! the view layer can name is resolvable for every supported locale — no
//! locale can silently drop a key, and no lookup can come back empty.

use vstd::prelude::*;

use crate::locale::Locale;

verus! {

/// The closed set of UI string keys that the view layer consumes.
#[derive(Clone, Copy, Debug, PartialEq, Eq, Structural)]
pub enum TextKey {
    LangId,
    SiteTitle,
    PasteButton,
    HelpH1,
    HelpH2,
    HelpMsg1H1,
    HelpMsg1H2,
    HelpMsg2H1,
    HelpMsg2H2,
    InfoH1,
    InfoH2,
    PostApiDoc,
    GetApiDoc,
}

/// The localized text of each key under each locale.
pub open spec fn text_spec(l: Locale, k: TextKey) -> Seq<char> {
    match l {
        Locale::SimplifiedChinese => match k {
            TextKey::LangId => "中文"@,
            TextKey::SiteTitle => "复制红 - 分享你的云剪切板"@,
            TextKey::PasteButton => "新建粘贴"@,
            TextKey::HelpH1 => "使用说明"@,
            TextKey::HelpH2 => "为什么用copy.red?"@,
            TextKey::HelpMsg1H1 => "目的"@,
            TextKey::HelpMsg1H2 => "方便不同设备之间的复制拷贝消息，手机电脑服务器均可，有无图形界面均可"@,
            TextKey::HelpMsg2H1 => "使用"@,
            TextKey::HelpMsg2H2 => "粘贴数据至文本框，点击按钮，得到可以分享的在其他设备使用的的链接"@,
            TextKey::InfoH1 => "自动化用法"@,
            TextKey::InfoH2 => "脚本参考"@,
            TextKey::PostApiDoc => "向网站提交任意数据, 返回带有<id>的网址, 等同于复制"@,
            TextKey::GetApiDoc => "用<id>取回之前复制的内容, 等同于粘贴"@,
        },
        Locale::Japanese => match k {
            TextKey::LangId => "日文"@,
            TextKey::SiteTitle => "copy.red-共有可能なクラウドクリップボード"@,
            TextKey::PasteButton => "新しい貼り付けを作成"@,
            TextKey::HelpH1 => "USAGE"@,
            TextKey::HelpH2 => "Why copy.red？"@,
            TextKey::HelpMsg1H1 => "GOAL"@,
            TextKey::HelpMsg1H2 => "電話、ラップトップ、デスクトップ、サーバーなどのデバイス間でデータを共有する"@,
            TextKey::HelpMsg2H1 => "USE"@,
            TextKey::HelpMsg2H2 => "データをテキストボックスに貼り付け、新しい貼り付けをクリックして、共有できるリンクを取得してください。"@,
            TextKey::InfoH1 => "自動化"@,
            TextKey::InfoH2 => "スクリプトの使用法"@,
            TextKey::PostApiDoc => "リクエストの本文の生データを受け入れ、本文のコンテンツを含むページのURLで応答します"@,
            TextKey::GetApiDoc => "ID` <id> `の貼り付けのコンテンツを取得します"@,
        },
        Locale::English => match k {
            TextKey::LangId => "En"@,
            TextKey::SiteTitle => "copy.red - your sharable cloud clipboard"@,
            TextKey::PasteButton => "Create New Paste"@,
            TextKey::HelpH1 => "USAGE"@,
            TextKey::HelpH2 => "Why copy.red?"@,
            TextKey::HelpMsg1H1 => "GOAL"@,
            TextKey::HelpMsg1H2 => "Share your data between devices, e.g phone, laptop, desktop, server etc."@,
            TextKey::HelpMsg2H1 => "USE"@,
            TextKey::HelpMsg2H2 => "Paste your data into textbox, click new paste, get the link you can share."@,
            TextKey::InfoH1 => "Automation"@,
            TextKey::InfoH2 => "Script usage"@,
            TextKey::PostApiDoc => "accepts raw data in the body of the request and responds with a URL of a page containing the body's content "@,
            TextKey::GetApiDoc => "retrieves the content for the paste with id `<id>`"@,
        },
    }
}

/// Bundle completeness: every key resolvable in the default locale — here,
/// every key of the closed set — resolves to nonempty text under every
/// supported locale, so no user-visible string can silently come out blank.
pub proof fn lemma_bundle_complete(l: Locale, k: TextKey)
    ensures
        text_spec(l, k).len() > 0,
{
    reveal_strlit("中文");
    reveal_strlit("复制红 - 分享你的云剪切板");
    reveal_strlit("新建粘贴");
    reveal_strlit("使用说明");
    reveal_strlit("为什么用copy.red?");
    reveal_strlit("目的");
    reveal_strlit("方便不同设备之间的复制拷贝消息，手机电脑服务器均可，有无图形界面均可");
    reveal_strlit("使用");
    reveal_strlit("粘贴数据至文本框，点击按钮，得到可以分享的在其他设备使用的的链接");
    reveal_strlit("自动化用法");
    reveal_strlit("脚本参考");
    reveal_strlit("向网站提交任意数据, 返回带有<id>的网址, 等同于复制");
    reveal_strlit("用<id>取回之前复制的内容, 等同于粘贴");
    reveal_strlit("日文");
    reveal_strlit("copy.red-共有可能なクラウドクリップボード");
    reveal_strlit("新しい貼り付けを作成");
    reveal_strlit("USAGE");
    reveal_strlit("Why copy.red？");
    reveal_strlit("GOAL");
    reveal_strlit("電話、ラップトップ、デスクトップ、サーバーなどのデバイス間でデータを共有する");
    reveal_strlit("USE");
    reveal_strlit("データをテキストボックスに貼り付け、新しい貼り付けをクリックして、共有できるリンクを取得してください。");
    reveal_strlit("自動化");
    reveal_strlit("スクリプトの使用法");
    reveal_strlit("リクエストの本文の生データを受け入れ、本文のコンテンツを含むページのURLで応答します");
    reveal_strlit("ID` <id> `の貼り付けのコンテンツを取得します");
    reveal_strlit("En");
    reveal_strlit("copy.red - your sharable cloud clipboard");
    reveal_strlit("Create New Paste");
    reveal_strlit("Why copy.red?");
    reveal_strlit("Share your data between devices, e.g phone, laptop, desktop, server etc.");
    reveal_strlit("Paste your data into textbox, click new paste, get the link you can share.");
    reveal_strlit("Automation");
    reveal_strlit("Script usage");
    reveal_strlit(
        "accepts raw data in the body of the request and responds with a URL of a page containing the body's content ",
    );
    reveal_strlit("retrieves the content for the paste with id `<id>`");
}

/// Looks the key up under the locale. Total: every key of the closed set
/// resolves under every supported locale.
pub fn lookup(l: Locale, k: TextKey) -> (r: &'static str)
    ensures
        r@ == text_spec(l, k),
{
    match l {
        Locale::SimplifiedChinese => match k {
            TextKey::LangId => "中文",
            TextKey::SiteTitle => "复制红 - 分享你的云剪切板",
            TextKey::PasteButton => "新建粘贴",
            TextKey::HelpH1 => "使用说明",
            TextKey::HelpH2 => "为什么用copy.red?",
            TextKey::HelpMsg1H1 => "目的",
            TextKey::HelpMsg1H2 => "方便不同设备之间的复制拷贝消息，手机电脑服务器均可，有无图形界面均可",
            TextKey::HelpMsg2H1 => "使用",
            TextKey::HelpMsg2H2 => "粘贴数据至文本框，点击按钮，得到可以分享的在其他设备使用的的链接",
            TextKey::InfoH1 => "自动化用法",
            TextKey::InfoH2 => "脚本参考",
            TextKey::PostApiDoc => "向网站提交任意数据, 返回带有<id>的网址, 等同于复制",
            TextKey::GetApiDoc => "用<id>取回之前复制的内容, 等同于粘贴",
        },
        Locale::Japanese => match k {
            TextKey::LangId => "日文",
            TextKey::SiteTitle => "copy.red-共有可能なクラウドクリップボード",
            TextKey::PasteButton => "新しい貼り付けを作成",
            TextKey::HelpH1 => "USAGE",
            TextKey::HelpH2 => "Why copy.red？",
            TextKey::HelpMsg1H1 => "GOAL",
            TextKey::HelpMsg1H2 => "電話、ラップトップ、デスクトップ、サーバーなどのデバイス間でデータを共有する",
            TextKey::HelpMsg2H1 => "USE",
            TextKey::HelpMsg2H2 => "データをテキストボックスに貼り付け、新しい貼り付けをクリックして、共有できるリンクを取得してください。",
            TextKey::InfoH1 => "自動化",
            TextKey::InfoH2 => "スクリプトの使用法",
            TextKey::PostApiDoc => "リクエストの本文の生データを受け入れ、本文のコンテンツを含むページのURLで応答します",
            TextKey::GetApiDoc => "ID` <id> `の貼り付けのコンテンツを取得します",
        },
        Locale::English => match k {
            TextKey::LangId => "En",
            TextKey::SiteTitle => "copy.red - your sharable cloud clipboard",
            TextKey::PasteButton => "Create New Paste",
            TextKey::HelpH1 => "USAGE",
            TextKey::HelpH2 => "Why copy.red?",
            TextKey::HelpMsg1H1 => "GOAL",
            TextKey::HelpMsg1H2 => "Share your data between devices, e.g phone, laptop, desktop, server etc.",
            TextKey::HelpMsg2H1 => "USE",
            TextKey::HelpMsg2H2 => "Paste your data into textbox, click new paste, get the link you can share.",
            TextKey::InfoH1 => "Automation",
            TextKey::InfoH2 => "Script usage",
            TextKey::PostApiDoc => "accepts raw data in the body of the request and responds with a URL of a page containing the body's content ",
            TextKey::GetApiDoc => "retrieves the content for the paste with id `<id>`",
        },
    }
}

} // verus!

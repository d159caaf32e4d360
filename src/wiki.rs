//! The wikis the bot answers from: their sites, titles and front pages in
//! each language of the mod's wiki.

use vstd::prelude::*;
use crate::text::{chars_of, lower_of, lowercase, same_text, string_of};

verus! {

/// A language of the mod's wiki.
#[derive(Clone, Copy, Debug, PartialEq, Eq, Structural)]
pub enum Lang {
    En,
    Fr,
    De,
    Nl,
    Zh,
    Ru,
    Es,
    Ja,
}

/// A wiki the bot can search.
#[derive(Clone, Copy, Debug, PartialEq, Eq, Structural)]
pub enum Wikis {
    EoA,
    LotrMod(Lang),
    TolkienGateway,
    Minecraft,
}

/// A namespace of a wiki.
#[derive(Clone, Copy, Debug, PartialEq, Eq, Structural)]
pub enum Namespace {
    Page,
    User,
    File,
    Template,
    Category,
    Blog,
}

/// A page to show: its title, an optional description, and its address.
pub struct GenericPage {
    pub title: String,
    pub desc: Option<String>,
    pub link: String,
}

/// The plain content of a [`GenericPage`].
pub struct PageModel {
    pub title: Seq<char>,
    pub desc: Option<Seq<char>>,
    pub link: Seq<char>,
}

impl View for GenericPage {
    type V = PageModel;

    open spec fn view(&self) -> PageModel {
        PageModel {
            title: self.title@,
            desc: match self.desc {
                Some(d) => Some(d@),
                None => None,
            },
            link: self.link@,
        }
    }
}

/// A page title returned by a wiki's random-page query.
pub struct RandomPage {
    pub title: String,
}

/// The `query` part of a random-page answer.
pub struct RandomQuery {
    pub random: Vec<RandomPage>,
}

/// A wiki's answer to a random-page query.
pub struct RandomRes {
    pub query: RandomQuery,
}

impl Default for Lang {
    fn default() -> (r: Lang)
        ensures
            r == Lang::En,
    {
        Lang::En
    }
}

pub open spec fn lang_main(l: Lang) -> Seq<char> {
    match l {
        Lang::En => "The Lord of the Rings Minecraft Mod Wiki"@,
        Lang::Fr => "Wiki du Mod Minecraft Seigneur des Anneaux"@,
        Lang::De => "Der Herr der Ringe Minecraft Mod Wiki"@,
        Lang::Nl => "In de ban van de Ring Minecraft Mod wiki"@,
        Lang::Zh => "魔戒我的世界模组百科"@,
        Lang::Ru => "Средиземье в Minecraft"@,
        Lang::Es => "Wiki Lotrminecraftmod"@,
        Lang::Ja => "マインクラフト　指輪物語MOD Wiki"@,
    }
}

pub open spec fn lang_users(l: Lang) -> Seq<char> {
    match l {
        Lang::En => "Users"@,
        Lang::Fr => "Liste des utilisateurs"@,
        Lang::De => "Benutzer"@,
        Lang::Nl => "Gebruikerslijst"@,
        Lang::Zh => "用户列表"@,
        Lang::Ru => "Список участников"@,
        Lang::Es => "Lista Usuarios"@,
        Lang::Ja => "登録利用者一覧"@,
    }
}

pub open spec fn lang_files(l: Lang) -> Seq<char> {
    match l {
        Lang::En => "List Files"@,
        Lang::Fr => "Liste des fichiers"@,
        Lang::De => "Dateien"@,
        Lang::Nl => "Bestandenlijst"@,
        Lang::Zh => "文件列表"@,
        Lang::Ru => "Список файлов"@,
        Lang::Es => "Lista Imágenes"@,
        Lang::Ja => "ファイル一覧"@,
    }
}

pub open spec fn lang_templates(l: Lang) -> Seq<char> {
    match l {
        Lang::En => "Templates"@,
        Lang::Fr => "Modèles"@,
        Lang::De => "Vorlagen"@,
        Lang::Nl => "Sjablonen"@,
        Lang::Zh => "Templates"@,
        Lang::Ru => "Шаблоны"@,
        Lang::Es => "Plantillas"@,
        Lang::Ja => "テンプレート"@,
    }
}

pub open spec fn lang_categories(l: Lang) -> Seq<char> {
    match l {
        Lang::En => "Categories"@,
        Lang::Fr => "Catégories"@,
        Lang::De => "Kategorien"@,
        Lang::Nl => "Categorieën"@,
        Lang::Zh => "页面分类"@,
        Lang::Ru => "Категории"@,
        Lang::Es => "Categorías"@,
        Lang::Ja => "カテゴリ"@,
    }
}

pub open spec fn lang_blogs(l: Lang) -> Seq<char> {
    match l {
        Lang::En => "Recent posts"@,
        Lang::Fr => "Posts récents"@,
        Lang::De => "Letzte Beiträge"@,
        Lang::Nl => "Recente berichten"@,
        Lang::Zh => "最近的职位"@,
        Lang::Ru => "Последние сообщения"@,
        Lang::Es => "Entradas recientes"@,
        Lang::Ja => "最近の投稿"@,
    }
}

pub open spec fn lang_code(l: Lang) -> Seq<char> {
    match l {
        Lang::En => "wiki"@,
        Lang::Fr => "fr"@,
        Lang::De => "de"@,
        Lang::Nl => "nl"@,
        Lang::Zh => "zh"@,
        Lang::Ru => "ru"@,
        Lang::Es => "es"@,
        Lang::Ja => "ja"@,
    }
}

/// The front-page greeting of the mod's wiki in language `l`, for `user`.
pub open spec fn lang_greeting(l: Lang, user: Seq<char>) -> Seq<char> {
    match l {
        Lang::En => "Welcome, "@ + user + ", to The Lord of the Rings Minecraft Mod Wiki, the official public wiki for everything related to the Lord of the Rings Mod."@,
        Lang::Fr => "Bienvenue, "@ + user + ", sur le Wiki du Mod Seigneur des Anneaux pour Minecraft, un wiki public pour tout ce qui concerne le Mod Seigneur des Anneaux."@,
        Lang::De => "Willkommen, "@ + user + ", im Der Herr der Ringe Minecraft Mod Wiki, einem öffentlichem Wiki für alles, was sich auf die Der Herr der Ringe Mod bezieht."@,
        Lang::Nl => "Welkom, "@ + user + ", op de In de ban van de Ring Minecraft Mod wiki, de officiële openbare Nederlandstalige wiki voor alles in verband met de In de ban van de Ring Mod."@,
        Lang::Zh => "欢迎你来到魔戒我的世界模组百科！"@,
        Lang::Ru => "Добро пожаловать, "@ + user + ", на Вики, связанную с модом Lord of the Rings Mod."@,
        Lang::Es => "Bienvenidos a Wiki Lotrminecraftmod\nEl wiki sobre el mod El Señor de los Anillos para Minecraft que todos pueden editar."@,
        Lang::Ja => "このサイトはThe Lord of The Rings Minecraft Mod Wiki、指輪物語MODに関する公式Wikiの日本語版です。FANDOMのアカウントを作成して言語設定を日本語にすることで、メニュー周りも日本語になり読みやすくなります。"@,
    }
}

impl Lang {
    /// The title of the mod's wiki in this language.
    pub fn main(&self) -> (r: &'static str)
        ensures
            r@ == lang_main(*self),
    {
        match self {
            Lang::En => "The Lord of the Rings Minecraft Mod Wiki",
            Lang::Fr => "Wiki du Mod Minecraft Seigneur des Anneaux",
            Lang::De => "Der Herr der Ringe Minecraft Mod Wiki",
            Lang::Nl => "In de ban van de Ring Minecraft Mod wiki",
            Lang::Zh => "魔戒我的世界模组百科",
            Lang::Ru => "Средиземье в Minecraft",
            Lang::Es => "Wiki Lotrminecraftmod",
            Lang::Ja => "マインクラフト　指輪物語MOD Wiki",
        }
    }

    /// The front-page greeting of the mod's wiki in this language, for `username`.
    pub fn maindesc(&self, username: &str) -> (r: String)
        ensures
            r@ == lang_greeting(*self, username@),
    {
        match self {
            Lang::En => {
                let mut s = String::from_str("Welcome, ");
                s.append(username);
                s.append(", to The Lord of the Rings Minecraft Mod Wiki, the official public wiki for everything related to the Lord of the Rings Mod.");
                s
            },
            Lang::Fr => {
                let mut s = String::from_str("Bienvenue, ");
                s.append(username);
                s.append(", sur le Wiki du Mod Seigneur des Anneaux pour Minecraft, un wiki public pour tout ce qui concerne le Mod Seigneur des Anneaux.");
                s
            },
            Lang::De => {
                let mut s = String::from_str("Willkommen, ");
                s.append(username);
                s.append(", im Der Herr der Ringe Minecraft Mod Wiki, einem öffentlichem Wiki für alles, was sich auf die Der Herr der Ringe Mod bezieht.");
                s
            },
            Lang::Nl => {
                let mut s = String::from_str("Welkom, ");
                s.append(username);
                s.append(", op de In de ban van de Ring Minecraft Mod wiki, de officiële openbare Nederlandstalige wiki voor alles in verband met de In de ban van de Ring Mod.");
                s
            },
            Lang::Zh => String::from_str("欢迎你来到魔戒我的世界模组百科！"),
            Lang::Ru => {
                let mut s = String::from_str("Добро пожаловать, ");
                s.append(username);
                s.append(", на Вики, связанную с модом Lord of the Rings Mod.");
                s
            },
            Lang::Es => String::from_str("Bienvenidos a Wiki Lotrminecraftmod\nEl wiki sobre el mod El Señor de los Anillos para Minecraft que todos pueden editar."),
            Lang::Ja => String::from_str("このサイトはThe Lord of The Rings Minecraft Mod Wiki、指輪物語MODに関する公式Wikiの日本語版です。FANDOMのアカウントを作成して言語設定を日本語にすることで、メニュー周りも日本語になり読みやすくなります。"),
        }
    }

    /// The title of the list of users.
    pub fn users(&self) -> (r: String)
        ensures
            r@ == lang_users(*self),
    {
        String::from_str(match self {
            Lang::En => "Users",
            Lang::Fr => "Liste des utilisateurs",
            Lang::De => "Benutzer",
            Lang::Nl => "Gebruikerslijst",
            Lang::Zh => "用户列表",
            Lang::Ru => "Список участников",
            Lang::Es => "Lista Usuarios",
            Lang::Ja => "登録利用者一覧",
        })
    }

    /// The title of the list of files.
    pub fn files(&self) -> (r: String)
        ensures
            r@ == lang_files(*self),
    {
        String::from_str(match self {
            Lang::En => "List Files",
            Lang::Fr => "Liste des fichiers",
            Lang::De => "Dateien",
            Lang::Nl => "Bestandenlijst",
            Lang::Zh => "文件列表",
            Lang::Ru => "Список файлов",
            Lang::Es => "Lista Imágenes",
            Lang::Ja => "ファイル一覧",
        })
    }

    /// The title of the list of templates.
    pub fn templates(&self) -> (r: String)
        ensures
            r@ == lang_templates(*self),
    {
        String::from_str(match self {
            Lang::En => "Templates",
            Lang::Fr => "Modèles",
            Lang::De => "Vorlagen",
            Lang::Nl => "Sjablonen",
            Lang::Zh => "Templates",
            Lang::Ru => "Шаблоны",
            Lang::Es => "Plantillas",
            Lang::Ja => "テンプレート",
        })
    }

    /// The title of the list of categories.
    pub fn categories(&self) -> (r: String)
        ensures
            r@ == lang_categories(*self),
    {
        String::from_str(match self {
            Lang::En => "Categories",
            Lang::Fr => "Catégories",
            Lang::De => "Kategorien",
            Lang::Nl => "Categorieën",
            Lang::Zh => "页面分类",
            Lang::Ru => "Категории",
            Lang::Es => "Categorías",
            Lang::Ja => "カテゴリ",
        })
    }

    /// The title of the recent blog posts.
    pub fn blogs(&self) -> (r: String)
        ensures
            r@ == lang_blogs(*self),
    {
        String::from_str(match self {
            Lang::En => "Recent posts",
            Lang::Fr => "Posts récents",
            Lang::De => "Letzte Beiträge",
            Lang::Nl => "Recente berichten",
            Lang::Zh => "最近的职位",
            Lang::Ru => "Последние сообщения",
            Lang::Es => "Entradas recientes",
            Lang::Ja => "最近の投稿",
        })
    }

    /// The language's path segment on the wiki (`wiki` for English).
    pub fn to_string(&self) -> (r: String)
        ensures
            r@ == lang_code(*self),
    {
        String::from_str(match self {
            Lang::En => "wiki",
            Lang::Fr => "fr",
            Lang::De => "de",
            Lang::Nl => "nl",
            Lang::Zh => "zh",
            Lang::Ru => "ru",
            Lang::Es => "es",
            Lang::Ja => "ja",
        })
    }

}

/// The address of a wiki's API.
pub open spec fn wiki_api(w: Wikis) -> Seq<char> {
    match w {
        Wikis::EoA => "https://erasofarda.fandom.com/api.php?"@,
        Wikis::LotrMod(l) => match l {
            Lang::En => "https://lotrminecraftmod.fandom.com/api.php?"@,
            Lang::Fr => "https://lotrminecraftmod.fandom.com/fr/api.php?"@,
            Lang::De => "https://lotrminecraftmod.fandom.com/de/api.php?"@,
            Lang::Nl => "https://lotrminecraftmod.fandom.com/nl/api.php?"@,
            Lang::Zh => "https://lotrminecraftmod.fandom.com/zh/api.php?"@,
            Lang::Ru => "https://lotrminecraftmod.fandom.com/ru/api.php?"@,
            Lang::Es => "https://lotrminecraftmod.fandom.com/es/api.php?"@,
            Lang::Ja => "https://lotrminecraftmod.fandom.com/ja/api.php?"@,
        },
        Wikis::TolkienGateway => "http://tolkiengateway.net/w/api.php?"@,
        Wikis::Minecraft => "https://minecraft.gamepedia.com/api.php?"@,
    }
}

/// The address of a wiki's site.
pub open spec fn wiki_site(w: Wikis) -> Seq<char> {
    match w {
        Wikis::EoA => "https://erasofarda.fandom.com"@,
        Wikis::LotrMod(l) => match l {
            Lang::En => "https://lotrminecraftmod.fandom.com"@,
            Lang::Fr => "https://lotrminecraftmod.fandom.com/fr"@,
            Lang::De => "https://lotrminecraftmod.fandom.com/de"@,
            Lang::Nl => "https://lotrminecraftmod.fandom.com/nl"@,
            Lang::Zh => "https://lotrminecraftmod.fandom.com/zh"@,
            Lang::Ru => "https://lotrminecraftmod.fandom.com/ru"@,
            Lang::Es => "https://lotrminecraftmod.fandom.com/es"@,
            Lang::Ja => "https://lotrminecraftmod.fandom.com/ja"@,
        },
        Wikis::TolkienGateway => "https://tolkiengateway.net"@,
        Wikis::Minecraft => "https://minecraft.gamepedia.com"@,
    }
}

/// The image shown with a wiki's pages when they have none.
pub open spec fn wiki_image(w: Wikis) -> Seq<char> {
    match w {
        Wikis::EoA => "https://static.wikia.nocookie.net/firstageserver/images/e/e6/Site-logo.png"@,
        Wikis::LotrMod(_) => "https://static.wikia.nocookie.net/lotrminecraftmod/images/8/8e/GrukRenewedLogo.png"@,
        Wikis::TolkienGateway => "https://medias.liberation.fr/photo/1277413-author-j-r-r-tolkien.jpg"@,
        Wikis::Minecraft => "https://i.ytimg.com/vi/Zeh9lmHGVM4/maxresdefault.jpg"@,
    }
}

/// A wiki's icon.
pub open spec fn wiki_icon(w: Wikis) -> Seq<char> {
    match w {
        Wikis::EoA => "https://cdn.discordapp.com/attachments/325553747898007553/612322535157268489/Test.png"@,
        Wikis::LotrMod(_) => "https://i.ibb.co/v1hHg3G/test.png"@,
        Wikis::TolkienGateway => "https://i.ibb.co/VYKWK7V/favicon.png"@,
        Wikis::Minecraft => "https://toppng.com/uploads/preview/minecraft-block-icon-11531077309p00lhxolea.png"@,
    }
}

/// A wiki's name.
pub open spec fn wiki_name(w: Wikis) -> Seq<char> {
    match w {
        Wikis::EoA => " The Eras of Arda Wiki"@,
        Wikis::LotrMod(l) => lang_main(l),
        Wikis::TolkienGateway => "Tolkien Gateway"@,
        Wikis::Minecraft => "Official Minecraft Wiki"@,
    }
}

/// What a wiki's front page says to `user`.
pub open spec fn wiki_greeting(w: Wikis, user: Seq<char>) -> Seq<char> {
    match w {
        Wikis::EoA => "Eras of Arda is a group of dedicated individuals who seek to expand on upon the LOTRMod to include the First and Second ages of Middle Earth. The First Age Addon adds new items, armors, factions, npcs and so much more."@,
        Wikis::LotrMod(l) => lang_greeting(l, user),
        Wikis::TolkienGateway => "Welcome, "@ + user + ", to Tolkien Gateway,\nthe J.R.R. Tolkien encyclopedia that anyone can edit."@,
        Wikis::Minecraft => "Welcome, "@ + user + ", to the Official Minecraft Wiki,\na publicly accessible and editable wiki for information on Minecraft and related subjects."@,
    }
}

/// A wiki's front page, for `user`.
pub open spec fn front_page(w: Wikis, user: Seq<char>) -> PageModel {
    PageModel { title: wiki_name(w), desc: Some(wiki_greeting(w, user)), link: wiki_site(w) }
}

/// The title of a namespace's index in language `l`.
pub open spec fn index_title(ns: Namespace, l: Lang) -> Seq<char> {
    match ns {
        Namespace::Page => lang_main(l),
        Namespace::User => lang_users(l),
        Namespace::File => lang_files(l),
        Namespace::Template => lang_templates(l),
        Namespace::Category => lang_categories(l),
        Namespace::Blog => lang_blogs(l),
    }
}

/// Where a namespace's index lives, below a site.
pub open spec fn index_path(ns: Namespace) -> Seq<char> {
    match ns {
        Namespace::Page => Seq::empty(),
        Namespace::User => "/Special:Listusers"@,
        Namespace::File => "/Special:ListFiles"@,
        Namespace::Template => "/Special:PrefixIndex?namespace=10"@,
        Namespace::Category => "/Special:Categories"@,
        Namespace::Blog => "/Blog:Recent_posts"@,
    }
}

/// The page shown for a namespace of a wiki when nothing is searched: the
/// front page, or on the two fandom wikis the namespace's index (in English
/// on the Eras of Arda wiki).
pub open spec fn namespace_page(ns: Namespace, w: Wikis, user: Seq<char>) -> PageModel {
    match w {
        Wikis::EoA => if ns == Namespace::Page {
            front_page(w, user)
        } else {
            PageModel { title: index_title(ns, Lang::En), desc: None, link: wiki_site(w) + index_path(ns) }
        },
        Wikis::LotrMod(l) => PageModel {
            title: index_title(ns, l),
            desc: if ns == Namespace::Page { Some(lang_greeting(l, user)) } else { None },
            link: wiki_site(w) + index_path(ns),
        },
        _ => front_page(w, user),
    }
}

impl Wikis {
    /// The address of the wiki's API.
    pub fn get_api(&self) -> (r: &'static str)
        ensures
            r@ == wiki_api(*self),
    {
        match self {
            Wikis::EoA => "https://erasofarda.fandom.com/api.php?",
            Wikis::LotrMod(l) => match l {
                Lang::En => "https://lotrminecraftmod.fandom.com/api.php?",
                Lang::Fr => "https://lotrminecraftmod.fandom.com/fr/api.php?",
                Lang::De => "https://lotrminecraftmod.fandom.com/de/api.php?",
                Lang::Nl => "https://lotrminecraftmod.fandom.com/nl/api.php?",
                Lang::Zh => "https://lotrminecraftmod.fandom.com/zh/api.php?",
                Lang::Ru => "https://lotrminecraftmod.fandom.com/ru/api.php?",
                Lang::Es => "https://lotrminecraftmod.fandom.com/es/api.php?",
                Lang::Ja => "https://lotrminecraftmod.fandom.com/ja/api.php?",
            },
            Wikis::TolkienGateway => "http://tolkiengateway.net/w/api.php?",
            Wikis::Minecraft => "https://minecraft.gamepedia.com/api.php?",
        }
    }

    /// The address of the wiki's site.
    pub fn site(&self) -> (r: &'static str)
        ensures
            r@ == wiki_site(*self),
    {
        match self {
            Wikis::EoA => "https://erasofarda.fandom.com",
            Wikis::LotrMod(l) => match l {
                Lang::En => "https://lotrminecraftmod.fandom.com",
                Lang::Fr => "https://lotrminecraftmod.fandom.com/fr",
                Lang::De => "https://lotrminecraftmod.fandom.com/de",
                Lang::Nl => "https://lotrminecraftmod.fandom.com/nl",
                Lang::Zh => "https://lotrminecraftmod.fandom.com/zh",
                Lang::Ru => "https://lotrminecraftmod.fandom.com/ru",
                Lang::Es => "https://lotrminecraftmod.fandom.com/es",
                Lang::Ja => "https://lotrminecraftmod.fandom.com/ja",
            },
            Wikis::TolkienGateway => "https://tolkiengateway.net",
            Wikis::Minecraft => "https://minecraft.gamepedia.com",
        }
    }

    /// The image shown with the wiki's pages when they have none.
    pub fn default_img(&self) -> (r: String)
        ensures
            r@ == wiki_image(*self),
    {
        String::from_str(match self {
            Wikis::EoA => "https://static.wikia.nocookie.net/firstageserver/images/e/e6/Site-logo.png",
            Wikis::LotrMod(_) => "https://static.wikia.nocookie.net/lotrminecraftmod/images/8/8e/GrukRenewedLogo.png",
            Wikis::TolkienGateway => "https://medias.liberation.fr/photo/1277413-author-j-r-r-tolkien.jpg",
            Wikis::Minecraft => "https://i.ytimg.com/vi/Zeh9lmHGVM4/maxresdefault.jpg",
        })
    }

    /// The wiki's icon.
    pub fn icon(&self) -> (r: &'static str)
        ensures
            r@ == wiki_icon(*self),
    {
        match self {
            Wikis::EoA => "https://cdn.discordapp.com/attachments/325553747898007553/612322535157268489/Test.png",
            Wikis::LotrMod(_) => "https://i.ibb.co/v1hHg3G/test.png",
            Wikis::TolkienGateway => "https://i.ibb.co/VYKWK7V/favicon.png",
            Wikis::Minecraft => "https://toppng.com/uploads/preview/minecraft-block-icon-11531077309p00lhxolea.png",
        }
    }

    /// The wiki's name.
    pub fn name(&self) -> (r: &'static str)
        ensures
            r@ == wiki_name(*self),
    {
        match self {
            Wikis::EoA => " The Eras of Arda Wiki",
            Wikis::LotrMod(l) => l.main(),
            Wikis::TolkienGateway => "Tolkien Gateway",
            Wikis::Minecraft => "Official Minecraft Wiki",
        }
    }

    /// The wiki's front page, greeting `username`.
    pub fn default(&self, username: &str) -> (r: GenericPage)
        ensures
            r@ == front_page(*self, username@),
    {
        let desc = match self {
            Wikis::EoA => String::from_str("Eras of Arda is a group of dedicated individuals who seek to expand on upon the LOTRMod to include the First and Second ages of Middle Earth. The First Age Addon adds new items, armors, factions, npcs and so much more."),
            Wikis::LotrMod(l) => l.maindesc(username),
            Wikis::TolkienGateway => {
                let mut s = String::from_str("Welcome, ");
                s.append(username);
                s.append(", to Tolkien Gateway,\nthe J.R.R. Tolkien encyclopedia that anyone can edit.");
                s
            },
            Wikis::Minecraft => {
                let mut s = String::from_str("Welcome, ");
                s.append(username);
                s.append(", to the Official Minecraft Wiki,\na publicly accessible and editable wiki for information on Minecraft and related subjects.");
                s
            },
        };
        GenericPage {
            title: String::from_str(self.name()),
            desc: Some(desc),
            link: String::from_str(self.site()),
        }
    }
}

impl Namespace {
    /// The page shown for this namespace of `wiki` when nothing is searched.
    pub fn main_page(&self, wiki: &Wikis, username: &str) -> (r: GenericPage)
        ensures
            r@ == namespace_page(*self, *wiki, username@),
    {
        let lang = match wiki {
            Wikis::EoA => {
                if *self == Namespace::Page {
                    return wiki.default(username);
                }
                Lang::En
            },
            Wikis::LotrMod(l) => *l,
            _ => {
                return wiki.default(username);
            },
        };
        let (title, path) = match self {
            Namespace::Page => (String::from_str(lang.main()), ""),
            Namespace::User => (lang.users(), "/Special:Listusers"),
            Namespace::File => (lang.files(), "/Special:ListFiles"),
            Namespace::Template => (lang.templates(), "/Special:PrefixIndex?namespace=10"),
            Namespace::Category => (lang.categories(), "/Special:Categories"),
            Namespace::Blog => (lang.blogs(), "/Blog:Recent_posts"),
        };
        proof {
            reveal_strlit("");
        }
        let mut link = String::from_str(wiki.site());
        link.append(path);
        let desc = if *self == Namespace::Page {
            Some(lang.maindesc(username))
        } else {
            None
        };
        GenericPage { title, desc, link }
    }

    /// The namespace numbers the wiki's search is limited to.
    pub fn ids(&self) -> (r: &'static str)
        ensures
            r@ == namespace_ids(*self),
    {
        match self {
            Namespace::Page => "0|4",
            Namespace::User => "2",
            Namespace::File => "6",
            Namespace::Template => "10",
            Namespace::Category => "14",
            Namespace::Blog => "500",
        }
    }

    /// The namespace's name, as users read it.
    pub fn to_string(&self) -> (r: String)
        ensures
            r@ == namespace_name(*self),
    {
        String::from_str(match self {
            Namespace::Page => "page",
            Namespace::User => "user",
            Namespace::File => "file",
            Namespace::Template => "template",
            Namespace::Category => "category",
            Namespace::Blog => "blog post",
        })
    }
}

/// The namespace numbers of a namespace.
pub open spec fn namespace_ids(ns: Namespace) -> Seq<char> {
    match ns {
        Namespace::Page => "0|4"@,
        Namespace::User => "2"@,
        Namespace::File => "6"@,
        Namespace::Template => "10"@,
        Namespace::Category => "14"@,
        Namespace::Blog => "500"@,
    }
}

/// A namespace's name.
pub open spec fn namespace_name(ns: Namespace) -> Seq<char> {
    match ns {
        Namespace::Page => "page"@,
        Namespace::User => "user"@,
        Namespace::File => "file"@,
        Namespace::Template => "template"@,
        Namespace::Category => "category"@,
        Namespace::Blog => "blog post"@,
    }
}

/// The language a lowercased word names: its code or its English name.
pub open spec fn lang_named(w: Seq<char>) -> Option<Lang> {
    if w == "en"@ || w == "english"@ {
        Some(Lang::En)
    } else if w == "fr"@ || w == "french"@ {
        Some(Lang::Fr)
    } else if w == "es"@ || w == "spanish"@ {
        Some(Lang::Es)
    } else if w == "de"@ || w == "german"@ {
        Some(Lang::De)
    } else if w == "nl"@ || w == "dutch"@ {
        Some(Lang::Nl)
    } else if w == "zh"@ || w == "chinese"@ {
        Some(Lang::Zh)
    } else if w == "ru"@ || w == "russian"@ {
        Some(Lang::Ru)
    } else if w == "ja"@ || w == "japanese"@ {
        Some(Lang::Ja)
    } else {
        None
    }
}

/// The language a lowercased word names.
pub fn lang_from_word(lowered: &str) -> (r: Option<Lang>)
    ensures
        r == lang_named(lowered@),
{
    if same_text(lowered, "en") || same_text(lowered, "english") {
        Some(Lang::En)
    } else if same_text(lowered, "fr") || same_text(lowered, "french") {
        Some(Lang::Fr)
    } else if same_text(lowered, "es") || same_text(lowered, "spanish") {
        Some(Lang::Es)
    } else if same_text(lowered, "de") || same_text(lowered, "german") {
        Some(Lang::De)
    } else if same_text(lowered, "nl") || same_text(lowered, "dutch") {
        Some(Lang::Nl)
    } else if same_text(lowered, "zh") || same_text(lowered, "chinese") {
        Some(Lang::Zh)
    } else if same_text(lowered, "ru") || same_text(lowered, "russian") {
        Some(Lang::Ru)
    } else if same_text(lowered, "ja") || same_text(lowered, "japanese") {
        Some(Lang::Ja)
    } else {
        None
    }
}

/// The language the first argument names, in any case; `None` where it
/// names none, and the argument is then part of the search.
pub fn lang(word: &str) -> (r: Option<Lang>)
    ensures
        r == lang_named(lower_of(word@)),
{
    let lowered = lowercase(word);
    lang_from_word(lowered.as_str())
}

/// The answer to a search that found nothing.
pub fn not_found_message(ns: Namespace) -> (r: String)
    ensures
        r@ == "Couldn't find a "@ + namespace_name(ns) + " for the given name!"@,
{
    let mut s = String::from_str("Couldn't find a ");
    let name = ns.to_string();
    s.append(name.as_str());
    s.append(" for the given name!");
    s
}

/// The text `str::trim` leaves of `s`.
pub uninterp spec fn trim_of(s: Seq<char>) -> Seq<char>;

/// Whether `t` stands in `s` as one contiguous part.
pub open spec fn contiguous_part(t: Seq<char>, s: Seq<char>) -> bool {
    exists|i: int, j: int| 0 <= i <= j <= s.len() && t == s.subrange(i, j)
}

/// Relies on str::trim: the text without its leading and trailing
/// whitespace, which is a contiguous part of it.
#[verifier::external_body]
fn trim_text(s: &str) -> (r: &str)
    ensures
        r@ == trim_of(s@),
        contiguous_part(r@, s@),
{
    s.trim()
}

/// `s` with each space written as an underscore, as page addresses have it.
pub open spec fn underscored(s: Seq<char>) -> Seq<char> {
    s.map_values(|c: char| if c == ' ' { '_' } else { c })
}

/// The address of the page titled `title` on the mod's English wiki.
pub open spec fn random_page_link(title: Seq<char>) -> Seq<char> {
    wiki_site(Wikis::LotrMod(Lang::En)) + "/"@ + underscored(trim_of(title))
}

/// A title as it stands in a page address on the mod's wiki.
pub fn page_path(title: &str) -> (r: String)
    ensures
        r@ == underscored(trim_of(title@)),
{
    let cs = chars_of(trim_text(title));
    let mut out: Vec<char> = Vec::new();
    let mut i: usize = 0;
    while i < cs.len()
        invariant
            i <= cs.len(),
            out@ == underscored(cs@.subrange(0, i as int)),
        decreases cs.len() - i,
    {
        out.push(if cs[i] == ' ' { '_' } else { cs[i] });
        i = i + 1;
        assert(out@ =~= underscored(cs@.subrange(0, i as int)));
    }
    assert(cs@.subrange(0, cs.len() as int) =~= cs@);
    string_of(&out)
}

impl GenericPage {
    /// The page a random-page answer names, on the mod's English wiki.
    pub fn from(page: RandomPage) -> (r: GenericPage)
        ensures
            r@ == (PageModel {
                title: page.title@,
                desc: Some("Random page..."@),
                link: random_page_link(page.title@),
            }),
    {
        let mut link = String::from_str(Wikis::LotrMod(Lang::En).site());
        link.append("/");
        let path = page_path(page.title.as_str());
        link.append(path.as_str());
        GenericPage { title: page.title, desc: Some(String::from_str("Random page...")), link }
    }
}

} // verus!

use lotr_mod_bot::wiki::{lang, lang_from_word, not_found_message, page_path, GenericPage, Lang, Namespace, RandomPage, Wikis};

#[test]
fn api_and_site_addresses() {
    assert_eq!(Wikis::EoA.get_api(), "https://erasofarda.fandom.com/api.php?");
    assert_eq!(Wikis::LotrMod(Lang::Fr).get_api(), "https://lotrminecraftmod.fandom.com/fr/api.php?");
    assert_eq!(Wikis::LotrMod(Lang::En).get_api(), "https://lotrminecraftmod.fandom.com/api.php?");
    assert_eq!(Wikis::TolkienGateway.get_api(), "http://tolkiengateway.net/w/api.php?");
    assert_eq!(Wikis::Minecraft.site(), "https://minecraft.gamepedia.com");
    assert_eq!(Wikis::LotrMod(Lang::Ja).site(), "https://lotrminecraftmod.fandom.com/ja");
    assert_eq!(Wikis::TolkienGateway.site(), "https://tolkiengateway.net");
}

#[test]
fn names_images_and_icons() {
    assert_eq!(Wikis::EoA.name(), " The Eras of Arda Wiki");
    assert_eq!(Wikis::LotrMod(Lang::Zh).name(), "魔戒我的世界模组百科");
    assert_eq!(Wikis::Minecraft.name(), "Official Minecraft Wiki");
    assert_eq!(
        Wikis::LotrMod(Lang::Ru).default_img(),
        "https://static.wikia.nocookie.net/lotrminecraftmod/images/8/8e/GrukRenewedLogo.png"
    );
    assert_eq!(Wikis::TolkienGateway.icon(), "https://i.ibb.co/VYKWK7V/favicon.png");
}

#[test]
fn language_titles() {
    assert_eq!(Lang::De.main(), "Der Herr der Ringe Minecraft Mod Wiki");
    assert_eq!(Lang::Fr.users(), "Liste des utilisateurs");
    assert_eq!(Lang::Es.files(), "Lista Imágenes");
    assert_eq!(Lang::Zh.templates(), "Templates");
    assert_eq!(Lang::Nl.categories(), "Categorieën");
    assert_eq!(Lang::Ja.blogs(), "最近の投稿");
    assert_eq!(Lang::En.to_string(), "wiki");
    assert_eq!(Lang::Ru.to_string(), "ru");
    let l: Lang = Default::default();
    assert_eq!(l, Lang::En);
}

#[test]
fn greetings_name_the_user() {
    assert_eq!(
        Lang::Ru.maindesc("Sam"),
        "Добро пожаловать, Sam, на Вики, связанную с модом Lord of the Rings Mod."
    );
    assert_eq!(Lang::Zh.maindesc("Sam"), "欢迎你来到魔戒我的世界模组百科！");
}

#[test]
fn front_pages() {
    let p = Wikis::TolkienGateway.default("Bilbo");
    assert_eq!(p.title, "Tolkien Gateway");
    assert_eq!(p.link, "https://tolkiengateway.net");
    assert_eq!(
        p.desc.as_deref(),
        Some("Welcome, Bilbo, to Tolkien Gateway,\nthe J.R.R. Tolkien encyclopedia that anyone can edit.")
    );
    let e = Wikis::EoA.default("x");
    assert_eq!(e.title, " The Eras of Arda Wiki");
    assert!(e.desc.unwrap().starts_with("Eras of Arda is a group of dedicated individuals who seek to expand on upon"));
}

#[test]
fn namespace_pages() {
    let u = Namespace::User.main_page(&Wikis::EoA, "bob");
    assert_eq!(u.title, "Users");
    assert_eq!(u.link, "https://erasofarda.fandom.com/Special:Listusers");
    assert!(u.desc.is_none());
    let t = Namespace::Template.main_page(&Wikis::LotrMod(Lang::Fr), "bob");
    assert_eq!(t.title, "Modèles");
    assert_eq!(t.link, "https://lotrminecraftmod.fandom.com/fr/Special:PrefixIndex?namespace=10");
    let p = Namespace::Page.main_page(&Wikis::LotrMod(Lang::De), "bob");
    assert_eq!(p.title, "Der Herr der Ringe Minecraft Mod Wiki");
    assert_eq!(p.link, "https://lotrminecraftmod.fandom.com/de");
    assert!(p.desc.unwrap().starts_with("Willkommen, bob, im"));
    let m = Namespace::File.main_page(&Wikis::Minecraft, "bob");
    assert_eq!(m.title, "Official Minecraft Wiki");
    assert_eq!(m.link, "https://minecraft.gamepedia.com");
    let b = Namespace::Blog.main_page(&Wikis::EoA, "bob");
    assert_eq!(b.link, "https://erasofarda.fandom.com/Blog:Recent_posts");
    assert_eq!(b.title, "Recent posts");
}

#[test]
fn namespace_names_and_ids() {
    assert_eq!(Namespace::Page.ids(), "0|4");
    assert_eq!(Namespace::Blog.ids(), "500");
    assert_eq!(Namespace::Blog.to_string(), "blog post");
    assert_eq!(not_found_message(Namespace::Category), "Couldn't find a category for the given name!");
}

#[test]
fn random_page_link_trims_and_underscores() {
    let p = GenericPage::from(RandomPage { title: "  Bree Land Gate  ".to_string() });
    assert_eq!(p.title, "  Bree Land Gate  ");
    assert_eq!(p.desc.as_deref(), Some("Random page..."));
    assert_eq!(p.link, "https://lotrminecraftmod.fandom.com/Bree_Land_Gate");
    assert_eq!(page_path("\tA B\n"), "A_B");
}

#[test]
fn language_words() {
    assert_eq!(lang("FR"), Some(Lang::Fr));
    assert_eq!(lang("Japanese"), Some(Lang::Ja));
    assert_eq!(lang("english"), Some(Lang::En));
    assert_eq!(lang("xx"), None);
    assert_eq!(lang_from_word("German"), None);
    assert_eq!(lang_from_word("german"), Some(Lang::De));
}

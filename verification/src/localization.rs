use vstd::prelude::*;

use crate::text::{chars_of, str_eq, string_from_chars};
use crate::locale_file::{
    locale_document_strings, locale_strings, locale_text_strings, parsed_view, toml_document, TomlEntry,
};

verus! {

/// The stored language preference that defers to the Windows locale.
pub const AUTOMATIC_LANGUAGE: &'static str = "auto";

/// A language that the desktop interface is translated into.
#[derive(Clone, Copy, Debug, PartialEq, Eq, Structural)]
pub enum UiLanguage {
    English,
    French,
    German,
    Spanish,
    PortugueseBrazil,
    Italian,
    Polish,
    Russian,
    ChineseSimplified,
    ChineseTraditional,
    Japanese,
    Korean,
}

/// The supported languages, in the order the language selector lists them.
pub open spec fn all_languages() -> Seq<UiLanguage> {
    seq![UiLanguage::English, UiLanguage::French, UiLanguage::German, UiLanguage::Spanish, UiLanguage::PortugueseBrazil, UiLanguage::Italian, UiLanguage::Polish, UiLanguage::Russian, UiLanguage::ChineseSimplified, UiLanguage::ChineseTraditional, UiLanguage::Japanese, UiLanguage::Korean]
}

impl UiLanguage {
    /// Every supported language, in selector order.
    pub const ALL: [UiLanguage; 12] = [
        UiLanguage::English,
        UiLanguage::French,
        UiLanguage::German,
        UiLanguage::Spanish,
        UiLanguage::PortugueseBrazil,
        UiLanguage::Italian,
        UiLanguage::Polish,
        UiLanguage::Russian,
        UiLanguage::ChineseSimplified,
        UiLanguage::ChineseTraditional,
        UiLanguage::Japanese,
        UiLanguage::Korean,
    ];

    /// The BCP 47 tag of the language, as a locale file is named.
    pub open spec fn tag_text(self) -> Seq<char> {
        match self {
            UiLanguage::English => "en"@,
            UiLanguage::French => "fr-FR"@,
            UiLanguage::German => "de-DE"@,
            UiLanguage::Spanish => "es-ES"@,
            UiLanguage::PortugueseBrazil => "pt-BR"@,
            UiLanguage::Italian => "it-IT"@,
            UiLanguage::Polish => "pl-PL"@,
            UiLanguage::Russian => "ru-RU"@,
            UiLanguage::ChineseSimplified => "zh-CN"@,
            UiLanguage::ChineseTraditional => "zh-TW"@,
            UiLanguage::Japanese => "ja-JP"@,
            UiLanguage::Korean => "ko-KR"@,
        }
    }

    /// The BCP 47 tag of the language.
    pub fn tag(self) -> (r: &'static str)
        ensures
            r@ == self.tag_text(),
    {
        match self {
            UiLanguage::English => "en",
            UiLanguage::French => "fr-FR",
            UiLanguage::German => "de-DE",
            UiLanguage::Spanish => "es-ES",
            UiLanguage::PortugueseBrazil => "pt-BR",
            UiLanguage::Italian => "it-IT",
            UiLanguage::Polish => "pl-PL",
            UiLanguage::Russian => "ru-RU",
            UiLanguage::ChineseSimplified => "zh-CN",
            UiLanguage::ChineseTraditional => "zh-TW",
            UiLanguage::Japanese => "ja-JP",
            UiLanguage::Korean => "ko-KR",
        }
    }

    /// The name of the language written in that language.
    pub open spec fn self_name_text(self) -> Seq<char> {
        match self {
            UiLanguage::English => "English"@,
            UiLanguage::French => "Français"@,
            UiLanguage::German => "Deutsch"@,
            UiLanguage::Spanish => "Español"@,
            UiLanguage::PortugueseBrazil => "Português (Brasil)"@,
            UiLanguage::Italian => "Italiano"@,
            UiLanguage::Polish => "Polski"@,
            UiLanguage::Russian => "Русский"@,
            UiLanguage::ChineseSimplified => "简体中文"@,
            UiLanguage::ChineseTraditional => "繁體中文"@,
            UiLanguage::Japanese => "日本語"@,
            UiLanguage::Korean => "한국어"@,
        }
    }

    /// The name of the language in itself, as the selector shows it.
    pub fn self_name(self) -> (r: &'static str)
        ensures
            r@ == self.self_name_text(),
    {
        match self {
            UiLanguage::English => "English",
            UiLanguage::French => "Français",
            UiLanguage::German => "Deutsch",
            UiLanguage::Spanish => "Español",
            UiLanguage::PortugueseBrazil => "Português (Brasil)",
            UiLanguage::Italian => "Italiano",
            UiLanguage::Polish => "Polski",
            UiLanguage::Russian => "Русский",
            UiLanguage::ChineseSimplified => "简体中文",
            UiLanguage::ChineseTraditional => "繁體中文",
            UiLanguage::Japanese => "日本語",
            UiLanguage::Korean => "한국어",
        }
    }

    /// The position of the language in the selector; position 0 is automatic.
    pub open spec fn selector_value(self) -> i32 {
        match self {
            UiLanguage::English => 1,
            UiLanguage::French => 2,
            UiLanguage::German => 3,
            UiLanguage::Spanish => 4,
            UiLanguage::PortugueseBrazil => 5,
            UiLanguage::Italian => 6,
            UiLanguage::Polish => 7,
            UiLanguage::Russian => 8,
            UiLanguage::ChineseSimplified => 9,
            UiLanguage::ChineseTraditional => 10,
            UiLanguage::Japanese => 11,
            UiLanguage::Korean => 12,
        }
    }

    /// The position of the language in the selector.
    pub fn selector_index(self) -> (r: i32)
        ensures
            r == self.selector_value(),
    {
        match self {
            UiLanguage::English => 1,
            UiLanguage::French => 2,
            UiLanguage::German => 3,
            UiLanguage::Spanish => 4,
            UiLanguage::PortugueseBrazil => 5,
            UiLanguage::Italian => 6,
            UiLanguage::Polish => 7,
            UiLanguage::Russian => 8,
            UiLanguage::ChineseSimplified => 9,
            UiLanguage::ChineseTraditional => 10,
            UiLanguage::Japanese => 11,
            UiLanguage::Korean => 12,
        }
    }

    /// The Windows UI font that renders the language.
    pub open spec fn font_family_text(self) -> Seq<char> {
        match self {
            UiLanguage::English => "Segoe UI"@,
            UiLanguage::French => "Segoe UI"@,
            UiLanguage::German => "Segoe UI"@,
            UiLanguage::Spanish => "Segoe UI"@,
            UiLanguage::PortugueseBrazil => "Segoe UI"@,
            UiLanguage::Italian => "Segoe UI"@,
            UiLanguage::Polish => "Segoe UI"@,
            UiLanguage::Russian => "Segoe UI"@,
            UiLanguage::ChineseSimplified => "Microsoft YaHei UI"@,
            UiLanguage::ChineseTraditional => "Microsoft JhengHei UI"@,
            UiLanguage::Japanese => "Yu Gothic UI"@,
            UiLanguage::Korean => "Malgun Gothic"@,
        }
    }

    /// The Windows UI font to request for the language.
    pub fn default_font_family(self) -> (r: &'static str)
        ensures
            r@ == self.font_family_text(),
    {
        match self {
            UiLanguage::English => "Segoe UI",
            UiLanguage::French => "Segoe UI",
            UiLanguage::German => "Segoe UI",
            UiLanguage::Spanish => "Segoe UI",
            UiLanguage::PortugueseBrazil => "Segoe UI",
            UiLanguage::Italian => "Segoe UI",
            UiLanguage::Polish => "Segoe UI",
            UiLanguage::Russian => "Segoe UI",
            UiLanguage::ChineseSimplified => "Microsoft YaHei UI",
            UiLanguage::ChineseTraditional => "Microsoft JhengHei UI",
            UiLanguage::Japanese => "Yu Gothic UI",
            UiLanguage::Korean => "Malgun Gothic",
        }
    }

    /// The message that precedes the error when a language preference cannot be saved.
    pub open spec fn save_failed_text(self) -> Seq<char> {
        match self {
            UiLanguage::English => "Could not save language preference"@,
            UiLanguage::French => "Impossible d’enregistrer la préférence de langue"@,
            UiLanguage::German => "Spracheinstellung konnte nicht gespeichert werden"@,
            UiLanguage::Spanish => "No se pudo guardar la preferencia de idioma"@,
            UiLanguage::PortugueseBrazil => "Não foi possível salvar a preferência de idioma"@,
            UiLanguage::Italian => "Impossibile salvare la preferenza della lingua"@,
            UiLanguage::Polish => "Nie można zapisać preferencji języka"@,
            UiLanguage::Russian => "Не удалось сохранить настройку языка"@,
            UiLanguage::ChineseSimplified => "无法保存语言首选项"@,
            UiLanguage::ChineseTraditional => "無法儲存語言偏好設定"@,
            UiLanguage::Japanese => "言語設定を保存できませんでした"@,
            UiLanguage::Korean => "언어 기본 설정을 저장할 수 없습니다"@,
        }
    }

    /// The heading shown while no source is loaded.
    pub open spec fn no_source_text(self) -> Seq<char> {
        match self {
            UiLanguage::English => "No source loaded"@,
            UiLanguage::French => "Aucune source chargée"@,
            UiLanguage::German => "Keine Quelle geladen"@,
            UiLanguage::Spanish => "No hay fuente cargada"@,
            UiLanguage::PortugueseBrazil => "Nenhuma fonte carregada"@,
            UiLanguage::Italian => "Nessuna origine caricata"@,
            UiLanguage::Polish => "Nie załadowano źródła"@,
            UiLanguage::Russian => "Источник не загружен"@,
            UiLanguage::ChineseSimplified => "未加载源"@,
            UiLanguage::ChineseTraditional => "未載入來源"@,
            UiLanguage::Japanese => "ソースが読み込まれていません"@,
            UiLanguage::Korean => "원본이 로드되지 않았습니다"@,
        }
    }

    /// The hint that suggests opening a raw image.
    pub open spec fn raw_image_hint_text(self) -> Seq<char> {
        match self {
            UiLanguage::English => "Open a raw Linux filesystem image to inspect it."@,
            UiLanguage::French => "Ouvrez une image brute de système de fichiers Linux pour l’inspecter."@,
            UiLanguage::German => "Öffnen Sie ein rohes Linux-Dateisystem-Image zur Untersuchung."@,
            UiLanguage::Spanish => "Abra una imagen sin procesar de un sistema de archivos Linux para inspeccionarla."@,
            UiLanguage::PortugueseBrazil => "Abra uma imagem bruta de sistema de arquivos Linux para examiná-la."@,
            UiLanguage::Italian => "Apri un’immagine raw di filesystem Linux per esaminarla."@,
            UiLanguage::Polish => "Otwórz surowy obraz systemu plików Linux, aby go sprawdzić."@,
            UiLanguage::Russian => "Откройте необработанный образ файловой системы Linux для просмотра."@,
            UiLanguage::ChineseSimplified => "打开原始 Linux 文件系统映像以进行查看。"@,
            UiLanguage::ChineseTraditional => "開啟原始 Linux 檔案系統映像檔以進行檢視。"@,
            UiLanguage::Japanese => "raw Linux ファイルシステムイメージを開いて確認します。"@,
            UiLanguage::Korean => "원시 Linux 파일 시스템 이미지를 열어 검사하세요."@,
        }
    }

    /// The heading shown when a scan finds no compatible source.
    pub open spec fn no_compatible_text(self) -> Seq<char> {
        match self {
            UiLanguage::English => "No compatible source"@,
            UiLanguage::French => "Aucune source compatible"@,
            UiLanguage::German => "Keine kompatible Quelle"@,
            UiLanguage::Spanish => "No hay fuente compatible"@,
            UiLanguage::PortugueseBrazil => "Nenhuma fonte compatível"@,
            UiLanguage::Italian => "Nessuna origine compatibile"@,
            UiLanguage::Polish => "Brak zgodnego źródła"@,
            UiLanguage::Russian => "Нет совместимого источника"@,
            UiLanguage::ChineseSimplified => "没有兼容的源"@,
            UiLanguage::ChineseTraditional => "沒有相容的來源"@,
            UiLanguage::Japanese => "互換性のあるソースがありません"@,
            UiLanguage::Korean => "호환되는 원본이 없습니다"@,
        }
    }

    /// The explanation shown when a physical scan finds nothing.
    pub open spec fn scan_empty_text(self) -> Seq<char> {
        match self {
            UiLanguage::English => "No supported Linux filesystem was found, or Windows denied raw-disk access. Run elevated to scan physical disks."@,
            UiLanguage::French => "Aucun système de fichiers Linux pris en charge n’a été trouvé, ou Windows a refusé l’accès brut au disque. Exécutez en tant qu’administrateur pour analyser les disques physiques."@,
            UiLanguage::German => "Kein unterstütztes Linux-Dateisystem gefunden, oder Windows verweigerte den Rohdatenträgerzugriff. Führen Sie die App erhöht aus, um physische Datenträger zu scannen."@,
            UiLanguage::Spanish => "No se encontró un sistema de archivos Linux compatible o Windows denegó el acceso sin procesar al disco. Ejecute como administrador para analizar discos físicos."@,
            UiLanguage::PortugueseBrazil => "Nenhum sistema de arquivos Linux compatível foi encontrado ou o Windows negou o acesso bruto ao disco. Execute como administrador para verificar discos físicos."@,
            UiLanguage::Italian => "Non è stato trovato alcun filesystem Linux supportato oppure Windows ha negato l’accesso raw al disco. Esegui come amministratore per analizzare i dischi fisici."@,
            UiLanguage::Polish => "Nie znaleziono obsługiwanego systemu plików Linux albo Windows odmówił surowego dostępu do dysku. Uruchom jako administrator, aby skanować dyski fizyczne."@,
            UiLanguage::Russian => "Поддерживаемая файловая система Linux не найдена либо Windows запретила прямой доступ к диску. Запустите от имени администратора для сканирования физических дисков."@,
            UiLanguage::ChineseSimplified => "未找到受支持的 Linux 文件系统，或者 Windows 拒绝了原始磁盘访问。请以管理员身份运行以扫描物理磁盘。"@,
            UiLanguage::ChineseTraditional => "找不到支援的 Linux 檔案系統，或 Windows 拒絕原始磁碟存取。請以系統管理員身分執行以掃描實體磁碟。"@,
            UiLanguage::Japanese => "対応する Linux ファイルシステムが見つからないか、Windows が raw ディスクアクセスを拒否しました。物理ディスクをスキャンするには管理者として実行してください。"@,
            UiLanguage::Korean => "지원되는 Linux 파일 시스템을 찾을 수 없거나 Windows가 원시 디스크 액세스를 거부했습니다. 물리 디스크를 검색하려면 관리자 권한으로 실행하세요."@,
        }
    }

    /// The explanation shown when an image cannot be opened.
    pub open spec fn image_open_failed_text(self) -> Seq<char> {
        match self {
            UiLanguage::English => "The image could not be opened safely."@,
            UiLanguage::French => "L’image n’a pas pu être ouverte en toute sécurité."@,
            UiLanguage::German => "Das Image konnte nicht sicher geöffnet werden."@,
            UiLanguage::Spanish => "La imagen no se pudo abrir de forma segura."@,
            UiLanguage::PortugueseBrazil => "Não foi possível abrir a imagem com segurança."@,
            UiLanguage::Italian => "Non è stato possibile aprire l’immagine in modo sicuro."@,
            UiLanguage::Polish => "Nie można było bezpiecznie otworzyć obrazu."@,
            UiLanguage::Russian => "Не удалось безопасно открыть образ."@,
            UiLanguage::ChineseSimplified => "无法安全地打开映像。"@,
            UiLanguage::ChineseTraditional => "無法安全地開啟映像檔。"@,
            UiLanguage::Japanese => "イメージを安全に開けませんでした。"@,
            UiLanguage::Korean => "이미지를 안전하게 열 수 없습니다."@,
        }
    }

}

/// The language at selector position `index`, if any.
pub fn language_from_selector(index: i32) -> (r: Option<UiLanguage>)
    ensures
        match r {
            Some(language) => language.selector_value() == index,
            None => forall|language: UiLanguage| #[trigger] language.selector_value() != index,
        },
{
    match index {
        1 => Some(UiLanguage::English),
        2 => Some(UiLanguage::French),
        3 => Some(UiLanguage::German),
        4 => Some(UiLanguage::Spanish),
        5 => Some(UiLanguage::PortugueseBrazil),
        6 => Some(UiLanguage::Italian),
        7 => Some(UiLanguage::Polish),
        8 => Some(UiLanguage::Russian),
        9 => Some(UiLanguage::ChineseSimplified),
        10 => Some(UiLanguage::ChineseTraditional),
        11 => Some(UiLanguage::Japanese),
        12 => Some(UiLanguage::Korean),
        _ => {
            assert forall|language: UiLanguage| #[trigger] language.selector_value() != index by {
                match language {
                    UiLanguage::English => {},
                    UiLanguage::French => {},
                    UiLanguage::German => {},
                    UiLanguage::Spanish => {},
                    UiLanguage::PortugueseBrazil => {},
                    UiLanguage::Italian => {},
                    UiLanguage::Polish => {},
                    UiLanguage::Russian => {},
                    UiLanguage::ChineseSimplified => {},
                    UiLanguage::ChineseTraditional => {},
                    UiLanguage::Japanese => {},
                    UiLanguage::Korean => {},
                }
            }
            None
        },
    }
}

/// The language whose own name is `name`, if any.
pub fn language_from_self_name(name: &str) -> (r: Option<UiLanguage>)
    ensures
        match r {
            Some(language) => language.self_name_text() == name@,
            None => forall|language: UiLanguage| #[trigger] language.self_name_text() != name@,
        },
{
    if str_eq(name, UiLanguage::English.self_name()) {
        return Some(UiLanguage::English);
    }
    if str_eq(name, UiLanguage::French.self_name()) {
        return Some(UiLanguage::French);
    }
    if str_eq(name, UiLanguage::German.self_name()) {
        return Some(UiLanguage::German);
    }
    if str_eq(name, UiLanguage::Spanish.self_name()) {
        return Some(UiLanguage::Spanish);
    }
    if str_eq(name, UiLanguage::PortugueseBrazil.self_name()) {
        return Some(UiLanguage::PortugueseBrazil);
    }
    if str_eq(name, UiLanguage::Italian.self_name()) {
        return Some(UiLanguage::Italian);
    }
    if str_eq(name, UiLanguage::Polish.self_name()) {
        return Some(UiLanguage::Polish);
    }
    if str_eq(name, UiLanguage::Russian.self_name()) {
        return Some(UiLanguage::Russian);
    }
    if str_eq(name, UiLanguage::ChineseSimplified.self_name()) {
        return Some(UiLanguage::ChineseSimplified);
    }
    if str_eq(name, UiLanguage::ChineseTraditional.self_name()) {
        return Some(UiLanguage::ChineseTraditional);
    }
    if str_eq(name, UiLanguage::Japanese.self_name()) {
        return Some(UiLanguage::Japanese);
    }
    if str_eq(name, UiLanguage::Korean.self_name()) {
        return Some(UiLanguage::Korean);
    }
    assert forall|language: UiLanguage| #[trigger] language.self_name_text() != name@ by {
        match language {
            UiLanguage::English => {},
            UiLanguage::French => {},
            UiLanguage::German => {},
            UiLanguage::Spanish => {},
            UiLanguage::PortugueseBrazil => {},
            UiLanguage::Italian => {},
            UiLanguage::Polish => {},
            UiLanguage::Russian => {},
            UiLanguage::ChineseSimplified => {},
            UiLanguage::ChineseTraditional => {},
            UiLanguage::Japanese => {},
            UiLanguage::Korean => {},
        }
    }
    None
}

/// Whether `c` has the Unicode `White_Space` property, which `str::trim` removes.
pub open spec fn is_white_space(c: char) -> bool {
    let u = c as u32;
    (0x9 <= u && u <= 0xd) || u == 0x20 || u == 0x85 || u == 0xa0 || u == 0x1680 || (0x2000 <= u
        && u <= 0x200a) || u == 0x2028 || u == 0x2029 || u == 0x202f || u == 0x205f || u == 0x3000
}

fn white_space(c: char) -> (r: bool)
    ensures
        r == is_white_space(c),
{
    let u = c as u32;
    (0x9 <= u && u <= 0xd) || u == 0x20 || u == 0x85 || u == 0xa0 || u == 0x1680 || (0x2000 <= u
        && u <= 0x200a) || u == 0x2028 || u == 0x2029 || u == 0x202f || u == 0x205f || u == 0x3000
}

/// Whether `s` holds nothing but white space.
pub open spec fn is_blank(s: Seq<char>) -> bool {
    forall|i: int| 0 <= i < s.len() ==> is_white_space(#[trigger] s[i])
}

/// Whether `s` holds nothing but white space.
pub fn blank(s: &str) -> (r: bool)
    ensures
        r == is_blank(s@),
{
    let chars = chars_of(s);
    let mut i: usize = 0;
    while i < chars.len()
        invariant
            i <= chars@.len(),
            chars@ == s@,
            forall|j: int| 0 <= j < i ==> is_white_space(#[trigger] s@[j]),
        decreases chars@.len() - i,
    {
        if !white_space(chars[i]) {
            return false;
        }
        i = i + 1;
    }
    true
}

/// `s` without its leading white space.
pub open spec fn trim_start(s: Seq<char>) -> Seq<char>
    decreases s.len(),
{
    if s.len() > 0 && is_white_space(s[0]) {
        trim_start(s.drop_first())
    } else {
        s
    }
}

/// `s` without its trailing white space.
pub open spec fn trim_end(s: Seq<char>) -> Seq<char>
    decreases s.len(),
{
    if s.len() > 0 && is_white_space(s.last()) {
        trim_end(s.drop_last())
    } else {
        s
    }
}

/// The character with `_` read as `-` and ASCII capitals made small.
pub open spec fn fold_char(c: char) -> char {
    if c == '_' {
        '-'
    } else if 'A' <= c && c <= 'Z' {
        ((c as u32) + 32) as char
    } else {
        c
    }
}

fn fold(c: char) -> (r: char)
    ensures
        r == fold_char(c),
{
    if c == '_' {
        '-'
    } else if 'A' <= c && c <= 'Z' {
        let lower: u8 = ((c as u32) + 32) as u8;
        lower as char
    } else {
        c
    }
}

/// Every character of `s` passed through `fold_char`.
pub open spec fn fold_all(s: Seq<char>) -> Seq<char>
    decreases s.len(),
{
    if s.len() == 0 {
        Seq::empty()
    } else {
        fold_all(s.drop_last()).push(fold_char(s.last()))
    }
}

/// A locale name as it is compared: trimmed, `_` read as `-`, ASCII in lower case.
pub open spec fn normalized_locale(s: Seq<char>) -> Seq<char> {
    fold_all(trim_end(trim_start(s)))
}

/// The part of a normalized locale name before its first `-`.
pub open spec fn primary_subtag(n: Seq<char>) -> Seq<char>
    decreases n.len(),
{
    if n.len() == 0 || n[0] == '-' {
        Seq::empty()
    } else {
        seq![n[0]] + primary_subtag(n.drop_first())
    }
}

/// The language that a normalized locale name names exactly.
pub open spec fn exact_language(n: Seq<char>) -> Option<UiLanguage> {
    if n == "en"@ || n == "en-us"@ || n == "en-gb"@ {
        Some(UiLanguage::English)
    } else if n == "fr"@ || n == "fr-fr"@ {
        Some(UiLanguage::French)
    } else if n == "de"@ || n == "de-de"@ {
        Some(UiLanguage::German)
    } else if n == "es"@ || n == "es-es"@ {
        Some(UiLanguage::Spanish)
    } else if n == "pt"@ || n == "pt-br"@ {
        Some(UiLanguage::PortugueseBrazil)
    } else if n == "it"@ || n == "it-it"@ {
        Some(UiLanguage::Italian)
    } else if n == "pl"@ || n == "pl-pl"@ {
        Some(UiLanguage::Polish)
    } else if n == "ru"@ || n == "ru-ru"@ {
        Some(UiLanguage::Russian)
    } else if n == "zh-cn"@ || n == "zh-hans"@ || n == "zh-hans-cn"@ {
        Some(UiLanguage::ChineseSimplified)
    } else if n == "zh-tw"@ || n == "zh-hant"@ || n == "zh-hant-tw"@ {
        Some(UiLanguage::ChineseTraditional)
    } else if n == "ja"@ || n == "ja-jp"@ {
        Some(UiLanguage::Japanese)
    } else if n == "ko"@ || n == "ko-kr"@ {
        Some(UiLanguage::Korean)
    } else {
        None
    }
}

/// The language that a primary subtag alone selects.
pub open spec fn base_language(b: Seq<char>) -> Option<UiLanguage> {
    if b == "fr"@ {
        Some(UiLanguage::French)
    } else if b == "de"@ {
        Some(UiLanguage::German)
    } else if b == "es"@ {
        Some(UiLanguage::Spanish)
    } else if b == "pt"@ {
        Some(UiLanguage::PortugueseBrazil)
    } else if b == "it"@ {
        Some(UiLanguage::Italian)
    } else if b == "pl"@ {
        Some(UiLanguage::Polish)
    } else if b == "ru"@ {
        Some(UiLanguage::Russian)
    } else if b == "ja"@ {
        Some(UiLanguage::Japanese)
    } else if b == "ko"@ {
        Some(UiLanguage::Korean)
    } else {
        None
    }
}

/// The supported language that a preference or locale name selects: none for an
/// empty or automatic value, else an exact name, else the primary subtag alone.
pub open spec fn supported_language(s: Seq<char>) -> Option<UiLanguage> {
    let n = normalized_locale(s);
    if n.len() == 0 || n == AUTOMATIC_LANGUAGE@ {
        None
    } else {
        match exact_language(n) {
            Some(language) => Some(language),
            None => base_language(primary_subtag(n)),
        }
    }
}

/// The language the interface uses: the saved preference where it names a
/// supported language, else the Windows locale where it does, else English.
pub open spec fn resolved_language(preference: Option<Seq<char>>, locale: Seq<char>) -> UiLanguage {
    let chosen = match preference {
        Some(p) => supported_language(p),
        None => None,
    };
    match chosen {
        Some(language) => language,
        None => match supported_language(locale) {
            Some(language) => language,
            None => UiLanguage::English,
        },
    }
}

/// The characters of `value` without its leading and trailing white space.
pub fn trimmed_chars(value: &str) -> (t: Vec<char>)
    ensures
        t@ == trim_end(trim_start(value@)),
{
    let chars = chars_of(value);
    let len = chars.len();
    let mut start: usize = 0;
    assert(value@.subrange(0, len as int) =~= value@);
    while start < len && white_space(chars[start])
        invariant
            start <= len,
            len == chars@.len(),
            chars@ == value@,
            trim_start(value@) == trim_start(value@.subrange(start as int, len as int)),
        decreases len - start,
    {
        assert(value@.subrange(start as int, len as int).drop_first() =~= value@.subrange(
            start + 1,
            len as int,
        ));
        start = start + 1;
    }
    let mut end: usize = len;
    while end > start && white_space(chars[end - 1])
        invariant
            start <= end <= len,
            len == chars@.len(),
            chars@ == value@,
            trim_end(trim_start(value@)) == trim_end(value@.subrange(start as int, end as int)),
        decreases end,
    {
        assert(value@.subrange(start as int, end as int).drop_last() =~= value@.subrange(
            start as int,
            end - 1,
        ));
        end = end - 1;
    }
    let mut t: Vec<char> = Vec::new();
    let mut k: usize = start;
    while k < end
        invariant
            start <= k <= end <= len,
            len == chars@.len(),
            chars@ == value@,
            t@ == value@.subrange(start as int, k as int),
        decreases end - k,
    {
        t.push(chars[k]);
        assert(t@ =~= value@.subrange(start as int, k + 1));
        k = k + 1;
    }
    t
}

fn normalize_locale(value: &str) -> (n: Vec<char>)
    ensures
        n@ == normalized_locale(value@),
{
    let trimmed = trimmed_chars(value);
    let mut n: Vec<char> = Vec::new();
    let mut k: usize = 0;
    while k < trimmed.len()
        invariant
            k <= trimmed@.len(),
            n@ == fold_all(trimmed@.subrange(0, k as int)),
        decreases trimmed@.len() - k,
    {
        assert(trimmed@.subrange(0, k + 1).drop_last() =~= trimmed@.subrange(0, k as int));
        n.push(fold(trimmed[k]));
        k = k + 1;
    }
    assert(trimmed@.subrange(0, trimmed@.len() as int) =~= trimmed@);
    n
}

fn primary_subtag_of(n: &Vec<char>) -> (b: Vec<char>)
    ensures
        b@ == primary_subtag(n@),
{
    let mut b: Vec<char> = Vec::new();
    let mut k: usize = 0;
    assert(n@.subrange(0, n@.len() as int) =~= n@);
    assert(b@ + primary_subtag(n@) =~= primary_subtag(n@));
    while k < n.len() && n[k] != '-'
        invariant
            k <= n@.len(),
            b@ == n@.subrange(0, k as int),
            primary_subtag(n@) == b@ + primary_subtag(n@.subrange(k as int, n@.len() as int)),
        decreases n@.len() - k,
    {
        let ghost rest = n@.subrange(k as int, n@.len() as int);
        assert(rest.drop_first() =~= n@.subrange(k + 1, n@.len() as int));
        assert(b@ + seq![n@[k as int]] + primary_subtag(rest.drop_first()) =~= b@ + (seq![n@[k as int]] + primary_subtag(rest.drop_first())));
        b.push(n[k]);
        assert(b@ =~= n@.subrange(0, k + 1));
        k = k + 1;
    }
    assert(b@ + primary_subtag(n@.subrange(k as int, n@.len() as int)) =~= b@);
    b
}

/// The supported language that `value` names, if any.
fn parse_supported_language(value: &str) -> (r: Option<UiLanguage>)
    ensures
        r == supported_language(value@),
{
    let n = normalize_locale(value);
    let text = string_from_chars(n.as_slice());
    let s = text.as_str();
    if n.len() == 0 || str_eq(s, AUTOMATIC_LANGUAGE) {
        return None;
    }
    if str_eq(s, "en") || str_eq(s, "en-us") || str_eq(s, "en-gb") {
        return Some(UiLanguage::English);
    }
    if str_eq(s, "fr") || str_eq(s, "fr-fr") {
        return Some(UiLanguage::French);
    }
    if str_eq(s, "de") || str_eq(s, "de-de") {
        return Some(UiLanguage::German);
    }
    if str_eq(s, "es") || str_eq(s, "es-es") {
        return Some(UiLanguage::Spanish);
    }
    if str_eq(s, "pt") || str_eq(s, "pt-br") {
        return Some(UiLanguage::PortugueseBrazil);
    }
    if str_eq(s, "it") || str_eq(s, "it-it") {
        return Some(UiLanguage::Italian);
    }
    if str_eq(s, "pl") || str_eq(s, "pl-pl") {
        return Some(UiLanguage::Polish);
    }
    if str_eq(s, "ru") || str_eq(s, "ru-ru") {
        return Some(UiLanguage::Russian);
    }
    if str_eq(s, "zh-cn") || str_eq(s, "zh-hans") || str_eq(s, "zh-hans-cn") {
        return Some(UiLanguage::ChineseSimplified);
    }
    if str_eq(s, "zh-tw") || str_eq(s, "zh-hant") || str_eq(s, "zh-hant-tw") {
        return Some(UiLanguage::ChineseTraditional);
    }
    if str_eq(s, "ja") || str_eq(s, "ja-jp") {
        return Some(UiLanguage::Japanese);
    }
    if str_eq(s, "ko") || str_eq(s, "ko-kr") {
        return Some(UiLanguage::Korean);
    }
    let base_chars = primary_subtag_of(&n);
    let base_text = string_from_chars(base_chars.as_slice());
    let b = base_text.as_str();
    if str_eq(b, "fr") {
        return Some(UiLanguage::French);
    }
    if str_eq(b, "de") {
        return Some(UiLanguage::German);
    }
    if str_eq(b, "es") {
        return Some(UiLanguage::Spanish);
    }
    if str_eq(b, "pt") {
        return Some(UiLanguage::PortugueseBrazil);
    }
    if str_eq(b, "it") {
        return Some(UiLanguage::Italian);
    }
    if str_eq(b, "pl") {
        return Some(UiLanguage::Polish);
    }
    if str_eq(b, "ru") {
        return Some(UiLanguage::Russian);
    }
    if str_eq(b, "ja") {
        return Some(UiLanguage::Japanese);
    }
    if str_eq(b, "ko") {
        return Some(UiLanguage::Korean);
    }
    None
}

/// The interface language for a saved preference and the Windows locale name.
pub fn resolve_language(preference: Option<&str>, windows_locale: &str) -> (r: UiLanguage)
    ensures
        r == resolved_language(
            match preference {
                Some(p) => Some(p@),
                None => None,
            },
            windows_locale@,
        ),
{
    let chosen = match preference {
        Some(p) => parse_supported_language(p),
        None => None,
    };
    match chosen {
        Some(language) => language,
        None => match parse_supported_language(windows_locale) {
            Some(language) => language,
            None => UiLanguage::English,
        },
    }
}

/// The user's Windows locale name; this build runs where Windows offers none,
/// so it is empty and the preference or English decides.
pub fn windows_user_locale() -> (r: String)
    ensures
        r@ == Seq::<char>::empty(),
{
    String::new()
}

/// A fixed piece of interface text.
#[derive(Clone, Copy, Debug, PartialEq, Eq, Structural)]
pub enum TextKey {
    AppTitle,
    AppSubtitle,
    ScanDrives,
    OpenImage,
    About,
    Sources,
    SourcesSubtitle,
    SourcesEmpty,
    FilesystemDetails,
    OpenFilesystemImage,
    ImagePlaceholder,
    Mount,
    Unmount,
    OpenInExplorer,
    Details,
    ReadOnlyWarning,
    Version,
    AboutDescription,
    Copyright,
    Close,
    PrerequisiteTitle,
    PrerequisiteSubtitle,
    ToContinue,
    PrerequisiteStepOne,
    PrerequisiteStepTwo,
    PrerequisiteStepThree,
    PrerequisiteNotice,
    DownloadWinFsp,
    Recheck,
    AutomaticLanguage,
}

/// The fixed interface text in English.
pub open spec fn english_text(key: TextKey) -> Seq<char> {
    match key {
        TextKey::AppTitle => "LinuxFS Manager"@,
        TextKey::AppSubtitle => "Read Linux filesystems safely on Windows"@,
        TextKey::ScanDrives => "Scan Drives"@,
        TextKey::OpenImage => "Open Image…"@,
        TextKey::About => "About"@,
        TextKey::Sources => "Sources"@,
        TextKey::SourcesSubtitle => "Partitions and image files"@,
        TextKey::SourcesEmpty => "Scan your drives or open an image to begin."@,
        TextKey::FilesystemDetails => "Filesystem details"@,
        TextKey::OpenFilesystemImage => "Open a filesystem image"@,
        TextKey::ImagePlaceholder => "Image path (or use Open Image…)"@,
        TextKey::Mount => "Mount"@,
        TextKey::Unmount => "Unmount"@,
        TextKey::OpenInExplorer => "Open in Explorer"@,
        TextKey::Details => "Details"@,
        TextKey::ReadOnlyWarning => "READ ONLY — source filesystems are never modified."@,
        TextKey::Version => "Version"@,
        TextKey::AboutDescription => "LinuxFS Manager provides safe, read-only access to Ext2/3/4, SquashFS, and supported XFS images from Windows physical disks, partitions, and raw image files."@,
        TextKey::Copyright => "LinuxFS Manager, @2026 Alfazen Inc. All rights reserved."@,
        TextKey::Close => "Close"@,
        TextKey::PrerequisiteTitle => "WinFsp is required"@,
        TextKey::PrerequisiteSubtitle => "A Windows filesystem framework prerequisite"@,
        TextKey::ToContinue => "To continue"@,
        TextKey::PrerequisiteStepOne => "1. Download WinFsp from its official release page."@,
        TextKey::PrerequisiteStepTwo => "2. Run the MSI installer and accept its driver installation."@,
        TextKey::PrerequisiteStepThree => "3. Return here and select Recheck."@,
        TextKey::PrerequisiteNotice => "LinuxFS Manager does not download, install, or modify WinFsp for you."@,
        TextKey::DownloadWinFsp => "Download WinFsp"@,
        TextKey::Recheck => "Recheck"@,
        TextKey::AutomaticLanguage => "Automatic (Windows)"@,
    }
}

fn english_copy(key: TextKey) -> (r: &'static str)
    ensures
        r@ == english_text(key),
{
    match key {
        TextKey::AppTitle => "LinuxFS Manager",
        TextKey::AppSubtitle => "Read Linux filesystems safely on Windows",
        TextKey::ScanDrives => "Scan Drives",
        TextKey::OpenImage => "Open Image…",
        TextKey::About => "About",
        TextKey::Sources => "Sources",
        TextKey::SourcesSubtitle => "Partitions and image files",
        TextKey::SourcesEmpty => "Scan your drives or open an image to begin.",
        TextKey::FilesystemDetails => "Filesystem details",
        TextKey::OpenFilesystemImage => "Open a filesystem image",
        TextKey::ImagePlaceholder => "Image path (or use Open Image…)",
        TextKey::Mount => "Mount",
        TextKey::Unmount => "Unmount",
        TextKey::OpenInExplorer => "Open in Explorer",
        TextKey::Details => "Details",
        TextKey::ReadOnlyWarning => "READ ONLY — source filesystems are never modified.",
        TextKey::Version => "Version",
        TextKey::AboutDescription => "LinuxFS Manager provides safe, read-only access to Ext2/3/4, SquashFS, and supported XFS images from Windows physical disks, partitions, and raw image files.",
        TextKey::Copyright => "LinuxFS Manager, @2026 Alfazen Inc. All rights reserved.",
        TextKey::Close => "Close",
        TextKey::PrerequisiteTitle => "WinFsp is required",
        TextKey::PrerequisiteSubtitle => "A Windows filesystem framework prerequisite",
        TextKey::ToContinue => "To continue",
        TextKey::PrerequisiteStepOne => "1. Download WinFsp from its official release page.",
        TextKey::PrerequisiteStepTwo => "2. Run the MSI installer and accept its driver installation.",
        TextKey::PrerequisiteStepThree => "3. Return here and select Recheck.",
        TextKey::PrerequisiteNotice => "LinuxFS Manager does not download, install, or modify WinFsp for you.",
        TextKey::DownloadWinFsp => "Download WinFsp",
        TextKey::Recheck => "Recheck",
        TextKey::AutomaticLanguage => "Automatic (Windows)",
    }
}

/// The fixed interface text in French.
pub open spec fn french_text(key: TextKey) -> Seq<char> {
    match key {
        TextKey::AppTitle => "LinuxFS Manager"@,
        TextKey::AppSubtitle => "Lisez les systèmes de fichiers Linux en toute sécurité sous Windows"@,
        TextKey::ScanDrives => "Analyser les disques"@,
        TextKey::OpenImage => "Ouvrir une image…"@,
        TextKey::About => "À propos"@,
        TextKey::Sources => "Sources"@,
        TextKey::SourcesSubtitle => "Partitions et fichiers image"@,
        TextKey::SourcesEmpty => "Analysez vos disques ou ouvrez une image pour commencer."@,
        TextKey::FilesystemDetails => "Détails du système de fichiers"@,
        TextKey::OpenFilesystemImage => "Ouvrir une image de système de fichiers"@,
        TextKey::ImagePlaceholder => "Chemin de l’image (ou utilisez Ouvrir une image…)"@,
        TextKey::Mount => "Monter"@,
        TextKey::Unmount => "Démonter"@,
        TextKey::OpenInExplorer => "Ouvrir dans l’Explorateur"@,
        TextKey::Details => "Détails"@,
        TextKey::ReadOnlyWarning => "LECTURE SEULE — les systèmes de fichiers source ne sont jamais modifiés."@,
        TextKey::Version => "Version"@,
        TextKey::AboutDescription => "LinuxFS Manager offre un accès sûr et en lecture seule aux images Ext2/3/4, SquashFS et XFS prises en charge depuis les disques Windows, partitions et fichiers image bruts."@,
        TextKey::Copyright => "LinuxFS Manager, @2026 Alfazen Inc. Tous droits réservés."@,
        TextKey::Close => "Fermer"@,
        TextKey::PrerequisiteTitle => "WinFsp est requis"@,
        TextKey::PrerequisiteSubtitle => "Prérequis du framework de système de fichiers Windows"@,
        TextKey::ToContinue => "Pour continuer"@,
        TextKey::PrerequisiteStepOne => "1. Téléchargez WinFsp depuis sa page officielle."@,
        TextKey::PrerequisiteStepTwo => "2. Exécutez le programme MSI et acceptez l’installation du pilote."@,
        TextKey::PrerequisiteStepThree => "3. Revenez ici et sélectionnez Vérifier à nouveau."@,
        TextKey::PrerequisiteNotice => "LinuxFS Manager ne télécharge, n’installe ni ne modifie WinFsp pour vous."@,
        TextKey::DownloadWinFsp => "Télécharger WinFsp"@,
        TextKey::Recheck => "Vérifier à nouveau"@,
        TextKey::AutomaticLanguage => "Automatique (Windows)"@,
    }
}

fn french_copy(key: TextKey) -> (r: &'static str)
    ensures
        r@ == french_text(key),
{
    match key {
        TextKey::AppTitle => "LinuxFS Manager",
        TextKey::AppSubtitle => "Lisez les systèmes de fichiers Linux en toute sécurité sous Windows",
        TextKey::ScanDrives => "Analyser les disques",
        TextKey::OpenImage => "Ouvrir une image…",
        TextKey::About => "À propos",
        TextKey::Sources => "Sources",
        TextKey::SourcesSubtitle => "Partitions et fichiers image",
        TextKey::SourcesEmpty => "Analysez vos disques ou ouvrez une image pour commencer.",
        TextKey::FilesystemDetails => "Détails du système de fichiers",
        TextKey::OpenFilesystemImage => "Ouvrir une image de système de fichiers",
        TextKey::ImagePlaceholder => "Chemin de l’image (ou utilisez Ouvrir une image…)",
        TextKey::Mount => "Monter",
        TextKey::Unmount => "Démonter",
        TextKey::OpenInExplorer => "Ouvrir dans l’Explorateur",
        TextKey::Details => "Détails",
        TextKey::ReadOnlyWarning => "LECTURE SEULE — les systèmes de fichiers source ne sont jamais modifiés.",
        TextKey::Version => "Version",
        TextKey::AboutDescription => "LinuxFS Manager offre un accès sûr et en lecture seule aux images Ext2/3/4, SquashFS et XFS prises en charge depuis les disques Windows, partitions et fichiers image bruts.",
        TextKey::Copyright => "LinuxFS Manager, @2026 Alfazen Inc. Tous droits réservés.",
        TextKey::Close => "Fermer",
        TextKey::PrerequisiteTitle => "WinFsp est requis",
        TextKey::PrerequisiteSubtitle => "Prérequis du framework de système de fichiers Windows",
        TextKey::ToContinue => "Pour continuer",
        TextKey::PrerequisiteStepOne => "1. Téléchargez WinFsp depuis sa page officielle.",
        TextKey::PrerequisiteStepTwo => "2. Exécutez le programme MSI et acceptez l’installation du pilote.",
        TextKey::PrerequisiteStepThree => "3. Revenez ici et sélectionnez Vérifier à nouveau.",
        TextKey::PrerequisiteNotice => "LinuxFS Manager ne télécharge, n’installe ni ne modifie WinFsp pour vous.",
        TextKey::DownloadWinFsp => "Télécharger WinFsp",
        TextKey::Recheck => "Vérifier à nouveau",
        TextKey::AutomaticLanguage => "Automatique (Windows)",
    }
}

/// The fixed interface text in German.
pub open spec fn german_text(key: TextKey) -> Seq<char> {
    match key {
        TextKey::AppTitle => "LinuxFS Manager"@,
        TextKey::AppSubtitle => "Linux-Dateisysteme unter Windows sicher lesen"@,
        TextKey::ScanDrives => "Laufwerke scannen"@,
        TextKey::OpenImage => "Image öffnen…"@,
        TextKey::About => "Info"@,
        TextKey::Sources => "Quellen"@,
        TextKey::SourcesSubtitle => "Partitionen und Image-Dateien"@,
        TextKey::SourcesEmpty => "Scannen Sie Ihre Laufwerke oder öffnen Sie zum Start ein Image."@,
        TextKey::FilesystemDetails => "Dateisystemdetails"@,
        TextKey::OpenFilesystemImage => "Dateisystem-Image öffnen"@,
        TextKey::ImagePlaceholder => "Image-Pfad (oder Image öffnen… verwenden)"@,
        TextKey::Mount => "Einbinden"@,
        TextKey::Unmount => "Aushängen"@,
        TextKey::OpenInExplorer => "Im Explorer öffnen"@,
        TextKey::Details => "Details"@,
        TextKey::ReadOnlyWarning => "NUR LESEN — Quelldateisysteme werden niemals verändert."@,
        TextKey::Version => "Version"@,
        TextKey::AboutDescription => "LinuxFS Manager bietet sicheren schreibgeschützten Zugriff auf Ext2/3/4-, SquashFS- und unterstützte XFS-Images von Windows-Datenträgern, Partitionen und Raw-Image-Dateien."@,
        TextKey::Copyright => "LinuxFS Manager, @2026 Alfazen Inc. Alle Rechte vorbehalten."@,
        TextKey::Close => "Schließen"@,
        TextKey::PrerequisiteTitle => "WinFsp ist erforderlich"@,
        TextKey::PrerequisiteSubtitle => "Voraussetzung für das Windows-Dateisystemframework"@,
        TextKey::ToContinue => "So geht es weiter"@,
        TextKey::PrerequisiteStepOne => "1. Laden Sie WinFsp von der offiziellen Release-Seite herunter."@,
        TextKey::PrerequisiteStepTwo => "2. Starten Sie das MSI-Installationsprogramm und akzeptieren Sie die Treiberinstallation."@,
        TextKey::PrerequisiteStepThree => "3. Kehren Sie hierher zurück und wählen Sie Erneut prüfen."@,
        TextKey::PrerequisiteNotice => "LinuxFS Manager lädt WinFsp nicht für Sie herunter, installiert oder verändert es nicht."@,
        TextKey::DownloadWinFsp => "WinFsp herunterladen"@,
        TextKey::Recheck => "Erneut prüfen"@,
        TextKey::AutomaticLanguage => "Automatisch (Windows)"@,
    }
}

fn german_copy(key: TextKey) -> (r: &'static str)
    ensures
        r@ == german_text(key),
{
    match key {
        TextKey::AppTitle => "LinuxFS Manager",
        TextKey::AppSubtitle => "Linux-Dateisysteme unter Windows sicher lesen",
        TextKey::ScanDrives => "Laufwerke scannen",
        TextKey::OpenImage => "Image öffnen…",
        TextKey::About => "Info",
        TextKey::Sources => "Quellen",
        TextKey::SourcesSubtitle => "Partitionen und Image-Dateien",
        TextKey::SourcesEmpty => "Scannen Sie Ihre Laufwerke oder öffnen Sie zum Start ein Image.",
        TextKey::FilesystemDetails => "Dateisystemdetails",
        TextKey::OpenFilesystemImage => "Dateisystem-Image öffnen",
        TextKey::ImagePlaceholder => "Image-Pfad (oder Image öffnen… verwenden)",
        TextKey::Mount => "Einbinden",
        TextKey::Unmount => "Aushängen",
        TextKey::OpenInExplorer => "Im Explorer öffnen",
        TextKey::Details => "Details",
        TextKey::ReadOnlyWarning => "NUR LESEN — Quelldateisysteme werden niemals verändert.",
        TextKey::Version => "Version",
        TextKey::AboutDescription => "LinuxFS Manager bietet sicheren schreibgeschützten Zugriff auf Ext2/3/4-, SquashFS- und unterstützte XFS-Images von Windows-Datenträgern, Partitionen und Raw-Image-Dateien.",
        TextKey::Copyright => "LinuxFS Manager, @2026 Alfazen Inc. Alle Rechte vorbehalten.",
        TextKey::Close => "Schließen",
        TextKey::PrerequisiteTitle => "WinFsp ist erforderlich",
        TextKey::PrerequisiteSubtitle => "Voraussetzung für das Windows-Dateisystemframework",
        TextKey::ToContinue => "So geht es weiter",
        TextKey::PrerequisiteStepOne => "1. Laden Sie WinFsp von der offiziellen Release-Seite herunter.",
        TextKey::PrerequisiteStepTwo => "2. Starten Sie das MSI-Installationsprogramm und akzeptieren Sie die Treiberinstallation.",
        TextKey::PrerequisiteStepThree => "3. Kehren Sie hierher zurück und wählen Sie Erneut prüfen.",
        TextKey::PrerequisiteNotice => "LinuxFS Manager lädt WinFsp nicht für Sie herunter, installiert oder verändert es nicht.",
        TextKey::DownloadWinFsp => "WinFsp herunterladen",
        TextKey::Recheck => "Erneut prüfen",
        TextKey::AutomaticLanguage => "Automatisch (Windows)",
    }
}

/// The fixed interface text in Spanish.
pub open spec fn spanish_text(key: TextKey) -> Seq<char> {
    match key {
        TextKey::AppTitle => "LinuxFS Manager"@,
        TextKey::AppSubtitle => "Lea sistemas de archivos Linux de forma segura en Windows"@,
        TextKey::ScanDrives => "Analizar unidades"@,
        TextKey::OpenImage => "Abrir imagen…"@,
        TextKey::About => "Acerca de"@,
        TextKey::Sources => "Fuentes"@,
        TextKey::SourcesSubtitle => "Particiones y archivos de imagen"@,
        TextKey::SourcesEmpty => "Analice sus unidades o abra una imagen para comenzar."@,
        TextKey::FilesystemDetails => "Detalles del sistema de archivos"@,
        TextKey::OpenFilesystemImage => "Abrir una imagen de sistema de archivos"@,
        TextKey::ImagePlaceholder => "Ruta de imagen (o use Abrir imagen…)"@,
        TextKey::Mount => "Montar"@,
        TextKey::Unmount => "Desmontar"@,
        TextKey::OpenInExplorer => "Abrir en el Explorador"@,
        TextKey::Details => "Detalles"@,
        TextKey::ReadOnlyWarning => "SOLO LECTURA — los sistemas de archivos de origen nunca se modifican."@,
        TextKey::Version => "Versión"@,
        TextKey::AboutDescription => "LinuxFS Manager ofrece acceso seguro y de solo lectura a imágenes Ext2/3/4, SquashFS y XFS compatibles desde discos físicos, particiones y archivos de imagen sin procesar de Windows."@,
        TextKey::Copyright => "LinuxFS Manager, @2026 Alfazen Inc. Todos los derechos reservados."@,
        TextKey::Close => "Cerrar"@,
        TextKey::PrerequisiteTitle => "Se requiere WinFsp"@,
        TextKey::PrerequisiteSubtitle => "Requisito previo del marco de sistemas de archivos de Windows"@,
        TextKey::ToContinue => "Para continuar"@,
        TextKey::PrerequisiteStepOne => "1. Descargue WinFsp desde su página oficial."@,
        TextKey::PrerequisiteStepTwo => "2. Ejecute el instalador MSI y acepte la instalación del controlador."@,
        TextKey::PrerequisiteStepThree => "3. Regrese aquí y seleccione Comprobar de nuevo."@,
        TextKey::PrerequisiteNotice => "LinuxFS Manager no descarga, instala ni modifica WinFsp por usted."@,
        TextKey::DownloadWinFsp => "Descargar WinFsp"@,
        TextKey::Recheck => "Comprobar de nuevo"@,
        TextKey::AutomaticLanguage => "Automático (Windows)"@,
    }
}

fn spanish_copy(key: TextKey) -> (r: &'static str)
    ensures
        r@ == spanish_text(key),
{
    match key {
        TextKey::AppTitle => "LinuxFS Manager",
        TextKey::AppSubtitle => "Lea sistemas de archivos Linux de forma segura en Windows",
        TextKey::ScanDrives => "Analizar unidades",
        TextKey::OpenImage => "Abrir imagen…",
        TextKey::About => "Acerca de",
        TextKey::Sources => "Fuentes",
        TextKey::SourcesSubtitle => "Particiones y archivos de imagen",
        TextKey::SourcesEmpty => "Analice sus unidades o abra una imagen para comenzar.",
        TextKey::FilesystemDetails => "Detalles del sistema de archivos",
        TextKey::OpenFilesystemImage => "Abrir una imagen de sistema de archivos",
        TextKey::ImagePlaceholder => "Ruta de imagen (o use Abrir imagen…)",
        TextKey::Mount => "Montar",
        TextKey::Unmount => "Desmontar",
        TextKey::OpenInExplorer => "Abrir en el Explorador",
        TextKey::Details => "Detalles",
        TextKey::ReadOnlyWarning => "SOLO LECTURA — los sistemas de archivos de origen nunca se modifican.",
        TextKey::Version => "Versión",
        TextKey::AboutDescription => "LinuxFS Manager ofrece acceso seguro y de solo lectura a imágenes Ext2/3/4, SquashFS y XFS compatibles desde discos físicos, particiones y archivos de imagen sin procesar de Windows.",
        TextKey::Copyright => "LinuxFS Manager, @2026 Alfazen Inc. Todos los derechos reservados.",
        TextKey::Close => "Cerrar",
        TextKey::PrerequisiteTitle => "Se requiere WinFsp",
        TextKey::PrerequisiteSubtitle => "Requisito previo del marco de sistemas de archivos de Windows",
        TextKey::ToContinue => "Para continuar",
        TextKey::PrerequisiteStepOne => "1. Descargue WinFsp desde su página oficial.",
        TextKey::PrerequisiteStepTwo => "2. Ejecute el instalador MSI y acepte la instalación del controlador.",
        TextKey::PrerequisiteStepThree => "3. Regrese aquí y seleccione Comprobar de nuevo.",
        TextKey::PrerequisiteNotice => "LinuxFS Manager no descarga, instala ni modifica WinFsp por usted.",
        TextKey::DownloadWinFsp => "Descargar WinFsp",
        TextKey::Recheck => "Comprobar de nuevo",
        TextKey::AutomaticLanguage => "Automático (Windows)",
    }
}

/// The fixed interface text in PortugueseBrazil.
pub open spec fn portuguese_brazil_text(key: TextKey) -> Seq<char> {
    match key {
        TextKey::AppTitle => "LinuxFS Manager"@,
        TextKey::AppSubtitle => "Leia sistemas de arquivos Linux com segurança no Windows"@,
        TextKey::ScanDrives => "Verificar unidades"@,
        TextKey::OpenImage => "Abrir imagem…"@,
        TextKey::About => "Sobre"@,
        TextKey::Sources => "Fontes"@,
        TextKey::SourcesSubtitle => "Partições e arquivos de imagem"@,
        TextKey::SourcesEmpty => "Verifique suas unidades ou abra uma imagem para começar."@,
        TextKey::FilesystemDetails => "Detalhes do sistema de arquivos"@,
        TextKey::OpenFilesystemImage => "Abrir uma imagem de sistema de arquivos"@,
        TextKey::ImagePlaceholder => "Caminho da imagem (ou use Abrir imagem…)"@,
        TextKey::Mount => "Montar"@,
        TextKey::Unmount => "Desmontar"@,
        TextKey::OpenInExplorer => "Abrir no Explorador"@,
        TextKey::Details => "Detalhes"@,
        TextKey::ReadOnlyWarning => "SOMENTE LEITURA — os sistemas de arquivos de origem nunca são modificados."@,
        TextKey::Version => "Versão"@,
        TextKey::AboutDescription => "LinuxFS Manager fornece acesso seguro e somente leitura a imagens Ext2/3/4, SquashFS e XFS compatíveis de discos físicos, partições e arquivos de imagem bruta do Windows."@,
        TextKey::Copyright => "LinuxFS Manager, @2026 Alfazen Inc. Todos os direitos reservados."@,
        TextKey::Close => "Fechar"@,
        TextKey::PrerequisiteTitle => "WinFsp é necessário"@,
        TextKey::PrerequisiteSubtitle => "Pré-requisito da estrutura de sistema de arquivos do Windows"@,
        TextKey::ToContinue => "Para continuar"@,
        TextKey::PrerequisiteStepOne => "1. Baixe o WinFsp na página oficial de lançamentos."@,
        TextKey::PrerequisiteStepTwo => "2. Execute o instalador MSI e aceite a instalação do driver."@,
        TextKey::PrerequisiteStepThree => "3. Volte aqui e selecione Verificar novamente."@,
        TextKey::PrerequisiteNotice => "LinuxFS Manager não baixa, instala nem modifica o WinFsp para você."@,
        TextKey::DownloadWinFsp => "Baixar WinFsp"@,
        TextKey::Recheck => "Verificar novamente"@,
        TextKey::AutomaticLanguage => "Automático (Windows)"@,
    }
}

fn portuguese_brazil_copy(key: TextKey) -> (r: &'static str)
    ensures
        r@ == portuguese_brazil_text(key),
{
    match key {
        TextKey::AppTitle => "LinuxFS Manager",
        TextKey::AppSubtitle => "Leia sistemas de arquivos Linux com segurança no Windows",
        TextKey::ScanDrives => "Verificar unidades",
        TextKey::OpenImage => "Abrir imagem…",
        TextKey::About => "Sobre",
        TextKey::Sources => "Fontes",
        TextKey::SourcesSubtitle => "Partições e arquivos de imagem",
        TextKey::SourcesEmpty => "Verifique suas unidades ou abra uma imagem para começar.",
        TextKey::FilesystemDetails => "Detalhes do sistema de arquivos",
        TextKey::OpenFilesystemImage => "Abrir uma imagem de sistema de arquivos",
        TextKey::ImagePlaceholder => "Caminho da imagem (ou use Abrir imagem…)",
        TextKey::Mount => "Montar",
        TextKey::Unmount => "Desmontar",
        TextKey::OpenInExplorer => "Abrir no Explorador",
        TextKey::Details => "Detalhes",
        TextKey::ReadOnlyWarning => "SOMENTE LEITURA — os sistemas de arquivos de origem nunca são modificados.",
        TextKey::Version => "Versão",
        TextKey::AboutDescription => "LinuxFS Manager fornece acesso seguro e somente leitura a imagens Ext2/3/4, SquashFS e XFS compatíveis de discos físicos, partições e arquivos de imagem bruta do Windows.",
        TextKey::Copyright => "LinuxFS Manager, @2026 Alfazen Inc. Todos os direitos reservados.",
        TextKey::Close => "Fechar",
        TextKey::PrerequisiteTitle => "WinFsp é necessário",
        TextKey::PrerequisiteSubtitle => "Pré-requisito da estrutura de sistema de arquivos do Windows",
        TextKey::ToContinue => "Para continuar",
        TextKey::PrerequisiteStepOne => "1. Baixe o WinFsp na página oficial de lançamentos.",
        TextKey::PrerequisiteStepTwo => "2. Execute o instalador MSI e aceite a instalação do driver.",
        TextKey::PrerequisiteStepThree => "3. Volte aqui e selecione Verificar novamente.",
        TextKey::PrerequisiteNotice => "LinuxFS Manager não baixa, instala nem modifica o WinFsp para você.",
        TextKey::DownloadWinFsp => "Baixar WinFsp",
        TextKey::Recheck => "Verificar novamente",
        TextKey::AutomaticLanguage => "Automático (Windows)",
    }
}

/// The fixed interface text in Italian.
pub open spec fn italian_text(key: TextKey) -> Seq<char> {
    match key {
        TextKey::AppTitle => "LinuxFS Manager"@,
        TextKey::AppSubtitle => "Leggi i filesystem Linux in modo sicuro su Windows"@,
        TextKey::ScanDrives => "Analizza unità"@,
        TextKey::OpenImage => "Apri immagine…"@,
        TextKey::About => "Informazioni"@,
        TextKey::Sources => "Origini"@,
        TextKey::SourcesSubtitle => "Partizioni e file immagine"@,
        TextKey::SourcesEmpty => "Analizza le unità o apri un’immagine per iniziare."@,
        TextKey::FilesystemDetails => "Dettagli del filesystem"@,
        TextKey::OpenFilesystemImage => "Apri un’immagine del filesystem"@,
        TextKey::ImagePlaceholder => "Percorso immagine (o usa Apri immagine…)"@,
        TextKey::Mount => "Monta"@,
        TextKey::Unmount => "Smonta"@,
        TextKey::OpenInExplorer => "Apri in Esplora file"@,
        TextKey::Details => "Dettagli"@,
        TextKey::ReadOnlyWarning => "SOLA LETTURA — i filesystem di origine non vengono mai modificati."@,
        TextKey::Version => "Versione"@,
        TextKey::AboutDescription => "LinuxFS Manager fornisce accesso sicuro in sola lettura a immagini Ext2/3/4, SquashFS e XFS supportate da dischi fisici, partizioni e file immagine raw di Windows."@,
        TextKey::Copyright => "LinuxFS Manager, @2026 Alfazen Inc. Tutti i diritti riservati."@,
        TextKey::Close => "Chiudi"@,
        TextKey::PrerequisiteTitle => "WinFsp è richiesto"@,
        TextKey::PrerequisiteSubtitle => "Prerequisito del framework di filesystem Windows"@,
        TextKey::ToContinue => "Per continuare"@,
        TextKey::PrerequisiteStepOne => "1. Scarica WinFsp dalla pagina ufficiale delle versioni."@,
        TextKey::PrerequisiteStepTwo => "2. Esegui l’installatore MSI e accetta l’installazione del driver."@,
        TextKey::PrerequisiteStepThree => "3. Torna qui e seleziona Ricontrolla."@,
        TextKey::PrerequisiteNotice => "LinuxFS Manager non scarica, installa né modifica WinFsp per te."@,
        TextKey::DownloadWinFsp => "Scarica WinFsp"@,
        TextKey::Recheck => "Ricontrolla"@,
        TextKey::AutomaticLanguage => "Automatico (Windows)"@,
    }
}

fn italian_copy(key: TextKey) -> (r: &'static str)
    ensures
        r@ == italian_text(key),
{
    match key {
        TextKey::AppTitle => "LinuxFS Manager",
        TextKey::AppSubtitle => "Leggi i filesystem Linux in modo sicuro su Windows",
        TextKey::ScanDrives => "Analizza unità",
        TextKey::OpenImage => "Apri immagine…",
        TextKey::About => "Informazioni",
        TextKey::Sources => "Origini",
        TextKey::SourcesSubtitle => "Partizioni e file immagine",
        TextKey::SourcesEmpty => "Analizza le unità o apri un’immagine per iniziare.",
        TextKey::FilesystemDetails => "Dettagli del filesystem",
        TextKey::OpenFilesystemImage => "Apri un’immagine del filesystem",
        TextKey::ImagePlaceholder => "Percorso immagine (o usa Apri immagine…)",
        TextKey::Mount => "Monta",
        TextKey::Unmount => "Smonta",
        TextKey::OpenInExplorer => "Apri in Esplora file",
        TextKey::Details => "Dettagli",
        TextKey::ReadOnlyWarning => "SOLA LETTURA — i filesystem di origine non vengono mai modificati.",
        TextKey::Version => "Versione",
        TextKey::AboutDescription => "LinuxFS Manager fornisce accesso sicuro in sola lettura a immagini Ext2/3/4, SquashFS e XFS supportate da dischi fisici, partizioni e file immagine raw di Windows.",
        TextKey::Copyright => "LinuxFS Manager, @2026 Alfazen Inc. Tutti i diritti riservati.",
        TextKey::Close => "Chiudi",
        TextKey::PrerequisiteTitle => "WinFsp è richiesto",
        TextKey::PrerequisiteSubtitle => "Prerequisito del framework di filesystem Windows",
        TextKey::ToContinue => "Per continuare",
        TextKey::PrerequisiteStepOne => "1. Scarica WinFsp dalla pagina ufficiale delle versioni.",
        TextKey::PrerequisiteStepTwo => "2. Esegui l’installatore MSI e accetta l’installazione del driver.",
        TextKey::PrerequisiteStepThree => "3. Torna qui e seleziona Ricontrolla.",
        TextKey::PrerequisiteNotice => "LinuxFS Manager non scarica, installa né modifica WinFsp per te.",
        TextKey::DownloadWinFsp => "Scarica WinFsp",
        TextKey::Recheck => "Ricontrolla",
        TextKey::AutomaticLanguage => "Automatico (Windows)",
    }
}

/// The fixed interface text in Polish.
pub open spec fn polish_text(key: TextKey) -> Seq<char> {
    match key {
        TextKey::AppTitle => "LinuxFS Manager"@,
        TextKey::AppSubtitle => "Bezpiecznie odczytuj systemy plików Linux w Windows"@,
        TextKey::ScanDrives => "Skanuj dyski"@,
        TextKey::OpenImage => "Otwórz obraz…"@,
        TextKey::About => "Informacje"@,
        TextKey::Sources => "Źródła"@,
        TextKey::SourcesSubtitle => "Partycje i pliki obrazów"@,
        TextKey::SourcesEmpty => "Zeskanuj dyski lub otwórz obraz, aby rozpocząć."@,
        TextKey::FilesystemDetails => "Szczegóły systemu plików"@,
        TextKey::OpenFilesystemImage => "Otwórz obraz systemu plików"@,
        TextKey::ImagePlaceholder => "Ścieżka obrazu (lub użyj Otwórz obraz…)"@,
        TextKey::Mount => "Zamontuj"@,
        TextKey::Unmount => "Odmontuj"@,
        TextKey::OpenInExplorer => "Otwórz w Eksploratorze"@,
        TextKey::Details => "Szczegóły"@,
        TextKey::ReadOnlyWarning => "TYLKO DO ODCZYTU — źródłowe systemy plików nigdy nie są modyfikowane."@,
        TextKey::Version => "Wersja"@,
        TextKey::AboutDescription => "LinuxFS Manager zapewnia bezpieczny dostęp tylko do odczytu do obsługiwanych obrazów Ext2/3/4, SquashFS i XFS z dysków fizycznych Windows, partycji i surowych plików obrazów."@,
        TextKey::Copyright => "LinuxFS Manager, @2026 Alfazen Inc. Wszelkie prawa zastrzeżone."@,
        TextKey::Close => "Zamknij"@,
        TextKey::PrerequisiteTitle => "WinFsp jest wymagany"@,
        TextKey::PrerequisiteSubtitle => "Wymaganie wstępne frameworka systemu plików Windows"@,
        TextKey::ToContinue => "Aby kontynuować"@,
        TextKey::PrerequisiteStepOne => "1. Pobierz WinFsp z oficjalnej strony wydań."@,
        TextKey::PrerequisiteStepTwo => "2. Uruchom instalator MSI i zaakceptuj instalację sterownika."@,
        TextKey::PrerequisiteStepThree => "3. Wróć tutaj i wybierz Sprawdź ponownie."@,
        TextKey::PrerequisiteNotice => "LinuxFS Manager nie pobiera, nie instaluje ani nie modyfikuje WinFsp za Ciebie."@,
        TextKey::DownloadWinFsp => "Pobierz WinFsp"@,
        TextKey::Recheck => "Sprawdź ponownie"@,
        TextKey::AutomaticLanguage => "Automatycznie (Windows)"@,
    }
}

fn polish_copy(key: TextKey) -> (r: &'static str)
    ensures
        r@ == polish_text(key),
{
    match key {
        TextKey::AppTitle => "LinuxFS Manager",
        TextKey::AppSubtitle => "Bezpiecznie odczytuj systemy plików Linux w Windows",
        TextKey::ScanDrives => "Skanuj dyski",
        TextKey::OpenImage => "Otwórz obraz…",
        TextKey::About => "Informacje",
        TextKey::Sources => "Źródła",
        TextKey::SourcesSubtitle => "Partycje i pliki obrazów",
        TextKey::SourcesEmpty => "Zeskanuj dyski lub otwórz obraz, aby rozpocząć.",
        TextKey::FilesystemDetails => "Szczegóły systemu plików",
        TextKey::OpenFilesystemImage => "Otwórz obraz systemu plików",
        TextKey::ImagePlaceholder => "Ścieżka obrazu (lub użyj Otwórz obraz…)",
        TextKey::Mount => "Zamontuj",
        TextKey::Unmount => "Odmontuj",
        TextKey::OpenInExplorer => "Otwórz w Eksploratorze",
        TextKey::Details => "Szczegóły",
        TextKey::ReadOnlyWarning => "TYLKO DO ODCZYTU — źródłowe systemy plików nigdy nie są modyfikowane.",
        TextKey::Version => "Wersja",
        TextKey::AboutDescription => "LinuxFS Manager zapewnia bezpieczny dostęp tylko do odczytu do obsługiwanych obrazów Ext2/3/4, SquashFS i XFS z dysków fizycznych Windows, partycji i surowych plików obrazów.",
        TextKey::Copyright => "LinuxFS Manager, @2026 Alfazen Inc. Wszelkie prawa zastrzeżone.",
        TextKey::Close => "Zamknij",
        TextKey::PrerequisiteTitle => "WinFsp jest wymagany",
        TextKey::PrerequisiteSubtitle => "Wymaganie wstępne frameworka systemu plików Windows",
        TextKey::ToContinue => "Aby kontynuować",
        TextKey::PrerequisiteStepOne => "1. Pobierz WinFsp z oficjalnej strony wydań.",
        TextKey::PrerequisiteStepTwo => "2. Uruchom instalator MSI i zaakceptuj instalację sterownika.",
        TextKey::PrerequisiteStepThree => "3. Wróć tutaj i wybierz Sprawdź ponownie.",
        TextKey::PrerequisiteNotice => "LinuxFS Manager nie pobiera, nie instaluje ani nie modyfikuje WinFsp za Ciebie.",
        TextKey::DownloadWinFsp => "Pobierz WinFsp",
        TextKey::Recheck => "Sprawdź ponownie",
        TextKey::AutomaticLanguage => "Automatycznie (Windows)",
    }
}

/// The fixed interface text in Russian.
pub open spec fn russian_text(key: TextKey) -> Seq<char> {
    match key {
        TextKey::AppTitle => "LinuxFS Manager"@,
        TextKey::AppSubtitle => "Безопасный доступ к файловым системам Linux в Windows"@,
        TextKey::ScanDrives => "Сканировать диски"@,
        TextKey::OpenImage => "Открыть образ…"@,
        TextKey::About => "О программе"@,
        TextKey::Sources => "Источники"@,
        TextKey::SourcesSubtitle => "Разделы и файлы образов"@,
        TextKey::SourcesEmpty => "Просканируйте диски или откройте образ, чтобы начать."@,
        TextKey::FilesystemDetails => "Сведения о файловой системе"@,
        TextKey::OpenFilesystemImage => "Открыть образ файловой системы"@,
        TextKey::ImagePlaceholder => "Путь к образу (или используйте Открыть образ…)"@,
        TextKey::Mount => "Подключить"@,
        TextKey::Unmount => "Отключить"@,
        TextKey::OpenInExplorer => "Открыть в Проводнике"@,
        TextKey::Details => "Сведения"@,
        TextKey::ReadOnlyWarning => "ТОЛЬКО ЧТЕНИЕ — исходные файловые системы никогда не изменяются."@,
        TextKey::Version => "Версия"@,
        TextKey::AboutDescription => "LinuxFS Manager предоставляет безопасный доступ только для чтения к поддерживаемым образам Ext2/3/4, SquashFS и XFS с физических дисков Windows, разделов и необработанных файлов образов."@,
        TextKey::Copyright => "LinuxFS Manager, @2026 Alfazen Inc. Все права защищены."@,
        TextKey::Close => "Закрыть"@,
        TextKey::PrerequisiteTitle => "Требуется WinFsp"@,
        TextKey::PrerequisiteSubtitle => "Необходимый компонент инфраструктуры файловых систем Windows"@,
        TextKey::ToContinue => "Чтобы продолжить"@,
        TextKey::PrerequisiteStepOne => "1. Загрузите WinFsp с официальной страницы выпуска."@,
        TextKey::PrerequisiteStepTwo => "2. Запустите установщик MSI и подтвердите установку драйвера."@,
        TextKey::PrerequisiteStepThree => "3. Вернитесь сюда и выберите Повторить проверку."@,
        TextKey::PrerequisiteNotice => "LinuxFS Manager не загружает, не устанавливает и не изменяет WinFsp за вас."@,
        TextKey::DownloadWinFsp => "Загрузить WinFsp"@,
        TextKey::Recheck => "Повторить проверку"@,
        TextKey::AutomaticLanguage => "Автоматически (Windows)"@,
    }
}

fn russian_copy(key: TextKey) -> (r: &'static str)
    ensures
        r@ == russian_text(key),
{
    match key {
        TextKey::AppTitle => "LinuxFS Manager",
        TextKey::AppSubtitle => "Безопасный доступ к файловым системам Linux в Windows",
        TextKey::ScanDrives => "Сканировать диски",
        TextKey::OpenImage => "Открыть образ…",
        TextKey::About => "О программе",
        TextKey::Sources => "Источники",
        TextKey::SourcesSubtitle => "Разделы и файлы образов",
        TextKey::SourcesEmpty => "Просканируйте диски или откройте образ, чтобы начать.",
        TextKey::FilesystemDetails => "Сведения о файловой системе",
        TextKey::OpenFilesystemImage => "Открыть образ файловой системы",
        TextKey::ImagePlaceholder => "Путь к образу (или используйте Открыть образ…)",
        TextKey::Mount => "Подключить",
        TextKey::Unmount => "Отключить",
        TextKey::OpenInExplorer => "Открыть в Проводнике",
        TextKey::Details => "Сведения",
        TextKey::ReadOnlyWarning => "ТОЛЬКО ЧТЕНИЕ — исходные файловые системы никогда не изменяются.",
        TextKey::Version => "Версия",
        TextKey::AboutDescription => "LinuxFS Manager предоставляет безопасный доступ только для чтения к поддерживаемым образам Ext2/3/4, SquashFS и XFS с физических дисков Windows, разделов и необработанных файлов образов.",
        TextKey::Copyright => "LinuxFS Manager, @2026 Alfazen Inc. Все права защищены.",
        TextKey::Close => "Закрыть",
        TextKey::PrerequisiteTitle => "Требуется WinFsp",
        TextKey::PrerequisiteSubtitle => "Необходимый компонент инфраструктуры файловых систем Windows",
        TextKey::ToContinue => "Чтобы продолжить",
        TextKey::PrerequisiteStepOne => "1. Загрузите WinFsp с официальной страницы выпуска.",
        TextKey::PrerequisiteStepTwo => "2. Запустите установщик MSI и подтвердите установку драйвера.",
        TextKey::PrerequisiteStepThree => "3. Вернитесь сюда и выберите Повторить проверку.",
        TextKey::PrerequisiteNotice => "LinuxFS Manager не загружает, не устанавливает и не изменяет WinFsp за вас.",
        TextKey::DownloadWinFsp => "Загрузить WinFsp",
        TextKey::Recheck => "Повторить проверку",
        TextKey::AutomaticLanguage => "Автоматически (Windows)",
    }
}

/// The fixed interface text in ChineseSimplified.
pub open spec fn chinese_simplified_text(key: TextKey) -> Seq<char> {
    match key {
        TextKey::AppTitle => "LinuxFS Manager"@,
        TextKey::AppSubtitle => "在 Windows 上安全读取 Linux 文件系统"@,
        TextKey::ScanDrives => "扫描驱动器"@,
        TextKey::OpenImage => "打开映像…"@,
        TextKey::About => "关于"@,
        TextKey::Sources => "源"@,
        TextKey::SourcesSubtitle => "分区和映像文件"@,
        TextKey::SourcesEmpty => "扫描驱动器或打开映像以开始。"@,
        TextKey::FilesystemDetails => "文件系统详细信息"@,
        TextKey::OpenFilesystemImage => "打开文件系统映像"@,
        TextKey::ImagePlaceholder => "映像路径（或使用“打开映像…”）"@,
        TextKey::Mount => "挂载"@,
        TextKey::Unmount => "卸载"@,
        TextKey::OpenInExplorer => "在资源管理器中打开"@,
        TextKey::Details => "详细信息"@,
        TextKey::ReadOnlyWarning => "只读 — 永不修改源文件系统。"@,
        TextKey::Version => "版本"@,
        TextKey::AboutDescription => "LinuxFS Manager 可从 Windows 物理磁盘、分区和原始映像文件安全地只读访问 Ext2/3/4、SquashFS 和受支持的 XFS 映像。"@,
        TextKey::Copyright => "LinuxFS Manager, @2026 Alfazen Inc. 保留所有权利。"@,
        TextKey::Close => "关闭"@,
        TextKey::PrerequisiteTitle => "需要 WinFsp"@,
        TextKey::PrerequisiteSubtitle => "Windows 文件系统框架先决条件"@,
        TextKey::ToContinue => "继续操作"@,
        TextKey::PrerequisiteStepOne => "1. 从 WinFsp 官方发布页面下载。"@,
        TextKey::PrerequisiteStepTwo => "2. 运行 MSI 安装程序并接受驱动程序安装。"@,
        TextKey::PrerequisiteStepThree => "3. 返回此处并选择“重新检查”。"@,
        TextKey::PrerequisiteNotice => "LinuxFS Manager 不会为您下载、安装或修改 WinFsp。"@,
        TextKey::DownloadWinFsp => "下载 WinFsp"@,
        TextKey::Recheck => "重新检查"@,
        TextKey::AutomaticLanguage => "自动（Windows）"@,
    }
}

fn chinese_simplified_copy(key: TextKey) -> (r: &'static str)
    ensures
        r@ == chinese_simplified_text(key),
{
    match key {
        TextKey::AppTitle => "LinuxFS Manager",
        TextKey::AppSubtitle => "在 Windows 上安全读取 Linux 文件系统",
        TextKey::ScanDrives => "扫描驱动器",
        TextKey::OpenImage => "打开映像…",
        TextKey::About => "关于",
        TextKey::Sources => "源",
        TextKey::SourcesSubtitle => "分区和映像文件",
        TextKey::SourcesEmpty => "扫描驱动器或打开映像以开始。",
        TextKey::FilesystemDetails => "文件系统详细信息",
        TextKey::OpenFilesystemImage => "打开文件系统映像",
        TextKey::ImagePlaceholder => "映像路径（或使用“打开映像…”）",
        TextKey::Mount => "挂载",
        TextKey::Unmount => "卸载",
        TextKey::OpenInExplorer => "在资源管理器中打开",
        TextKey::Details => "详细信息",
        TextKey::ReadOnlyWarning => "只读 — 永不修改源文件系统。",
        TextKey::Version => "版本",
        TextKey::AboutDescription => "LinuxFS Manager 可从 Windows 物理磁盘、分区和原始映像文件安全地只读访问 Ext2/3/4、SquashFS 和受支持的 XFS 映像。",
        TextKey::Copyright => "LinuxFS Manager, @2026 Alfazen Inc. 保留所有权利。",
        TextKey::Close => "关闭",
        TextKey::PrerequisiteTitle => "需要 WinFsp",
        TextKey::PrerequisiteSubtitle => "Windows 文件系统框架先决条件",
        TextKey::ToContinue => "继续操作",
        TextKey::PrerequisiteStepOne => "1. 从 WinFsp 官方发布页面下载。",
        TextKey::PrerequisiteStepTwo => "2. 运行 MSI 安装程序并接受驱动程序安装。",
        TextKey::PrerequisiteStepThree => "3. 返回此处并选择“重新检查”。",
        TextKey::PrerequisiteNotice => "LinuxFS Manager 不会为您下载、安装或修改 WinFsp。",
        TextKey::DownloadWinFsp => "下载 WinFsp",
        TextKey::Recheck => "重新检查",
        TextKey::AutomaticLanguage => "自动（Windows）",
    }
}

/// The fixed interface text in ChineseTraditional.
pub open spec fn chinese_traditional_text(key: TextKey) -> Seq<char> {
    match key {
        TextKey::AppTitle => "LinuxFS Manager"@,
        TextKey::AppSubtitle => "在 Windows 上安全讀取 Linux 檔案系統"@,
        TextKey::ScanDrives => "掃描磁碟機"@,
        TextKey::OpenImage => "開啟映像檔…"@,
        TextKey::About => "關於"@,
        TextKey::Sources => "來源"@,
        TextKey::SourcesSubtitle => "分割區和映像檔"@,
        TextKey::SourcesEmpty => "掃描磁碟機或開啟映像檔以開始。"@,
        TextKey::FilesystemDetails => "檔案系統詳細資料"@,
        TextKey::OpenFilesystemImage => "開啟檔案系統映像檔"@,
        TextKey::ImagePlaceholder => "映像檔路徑（或使用「開啟映像檔…」）"@,
        TextKey::Mount => "掛載"@,
        TextKey::Unmount => "卸載"@,
        TextKey::OpenInExplorer => "在檔案總管中開啟"@,
        TextKey::Details => "詳細資料"@,
        TextKey::ReadOnlyWarning => "唯讀 — 永不修改來源檔案系統。"@,
        TextKey::Version => "版本"@,
        TextKey::AboutDescription => "LinuxFS Manager 可從 Windows 實體磁碟、分割區和原始映像檔安全地唯讀存取 Ext2/3/4、SquashFS 和支援的 XFS 映像檔。"@,
        TextKey::Copyright => "LinuxFS Manager, @2026 Alfazen Inc. 保留所有權利。"@,
        TextKey::Close => "關閉"@,
        TextKey::PrerequisiteTitle => "需要 WinFsp"@,
        TextKey::PrerequisiteSubtitle => "Windows 檔案系統框架必要條件"@,
        TextKey::ToContinue => "繼續"@,
        TextKey::PrerequisiteStepOne => "1. 從 WinFsp 官方版本頁面下載。"@,
        TextKey::PrerequisiteStepTwo => "2. 執行 MSI 安裝程式並接受驅動程式安裝。"@,
        TextKey::PrerequisiteStepThree => "3. 返回此處並選取「重新檢查」。"@,
        TextKey::PrerequisiteNotice => "LinuxFS Manager 不會為您下載、安裝或修改 WinFsp。"@,
        TextKey::DownloadWinFsp => "下載 WinFsp"@,
        TextKey::Recheck => "重新檢查"@,
        TextKey::AutomaticLanguage => "自動（Windows）"@,
    }
}

fn chinese_traditional_copy(key: TextKey) -> (r: &'static str)
    ensures
        r@ == chinese_traditional_text(key),
{
    match key {
        TextKey::AppTitle => "LinuxFS Manager",
        TextKey::AppSubtitle => "在 Windows 上安全讀取 Linux 檔案系統",
        TextKey::ScanDrives => "掃描磁碟機",
        TextKey::OpenImage => "開啟映像檔…",
        TextKey::About => "關於",
        TextKey::Sources => "來源",
        TextKey::SourcesSubtitle => "分割區和映像檔",
        TextKey::SourcesEmpty => "掃描磁碟機或開啟映像檔以開始。",
        TextKey::FilesystemDetails => "檔案系統詳細資料",
        TextKey::OpenFilesystemImage => "開啟檔案系統映像檔",
        TextKey::ImagePlaceholder => "映像檔路徑（或使用「開啟映像檔…」）",
        TextKey::Mount => "掛載",
        TextKey::Unmount => "卸載",
        TextKey::OpenInExplorer => "在檔案總管中開啟",
        TextKey::Details => "詳細資料",
        TextKey::ReadOnlyWarning => "唯讀 — 永不修改來源檔案系統。",
        TextKey::Version => "版本",
        TextKey::AboutDescription => "LinuxFS Manager 可從 Windows 實體磁碟、分割區和原始映像檔安全地唯讀存取 Ext2/3/4、SquashFS 和支援的 XFS 映像檔。",
        TextKey::Copyright => "LinuxFS Manager, @2026 Alfazen Inc. 保留所有權利。",
        TextKey::Close => "關閉",
        TextKey::PrerequisiteTitle => "需要 WinFsp",
        TextKey::PrerequisiteSubtitle => "Windows 檔案系統框架必要條件",
        TextKey::ToContinue => "繼續",
        TextKey::PrerequisiteStepOne => "1. 從 WinFsp 官方版本頁面下載。",
        TextKey::PrerequisiteStepTwo => "2. 執行 MSI 安裝程式並接受驅動程式安裝。",
        TextKey::PrerequisiteStepThree => "3. 返回此處並選取「重新檢查」。",
        TextKey::PrerequisiteNotice => "LinuxFS Manager 不會為您下載、安裝或修改 WinFsp。",
        TextKey::DownloadWinFsp => "下載 WinFsp",
        TextKey::Recheck => "重新檢查",
        TextKey::AutomaticLanguage => "自動（Windows）",
    }
}

/// The fixed interface text in Japanese.
pub open spec fn japanese_text(key: TextKey) -> Seq<char> {
    match key {
        TextKey::AppTitle => "LinuxFS Manager"@,
        TextKey::AppSubtitle => "Windows で Linux ファイルシステムを安全に読み取る"@,
        TextKey::ScanDrives => "ドライブをスキャン"@,
        TextKey::OpenImage => "イメージを開く…"@,
        TextKey::About => "バージョン情報"@,
        TextKey::Sources => "ソース"@,
        TextKey::SourcesSubtitle => "パーティションとイメージファイル"@,
        TextKey::SourcesEmpty => "ドライブをスキャンするか、イメージを開いて開始します。"@,
        TextKey::FilesystemDetails => "ファイルシステムの詳細"@,
        TextKey::OpenFilesystemImage => "ファイルシステムイメージを開く"@,
        TextKey::ImagePlaceholder => "イメージのパス（または「イメージを開く…」を使用）"@,
        TextKey::Mount => "マウント"@,
        TextKey::Unmount => "アンマウント"@,
        TextKey::OpenInExplorer => "エクスプローラーで開く"@,
        TextKey::Details => "詳細"@,
        TextKey::ReadOnlyWarning => "読み取り専用 — ソースファイルシステムは変更されません。"@,
        TextKey::Version => "バージョン"@,
        TextKey::AboutDescription => "LinuxFS Manager は、Windows の物理ディスク、パーティション、raw イメージファイルから Ext2/3/4、SquashFS、対応 XFS イメージへの安全な読み取り専用アクセスを提供します。"@,
        TextKey::Copyright => "LinuxFS Manager, @2026 Alfazen Inc. All rights reserved."@,
        TextKey::Close => "閉じる"@,
        TextKey::PrerequisiteTitle => "WinFsp が必要です"@,
        TextKey::PrerequisiteSubtitle => "Windows ファイルシステムフレームワークの前提条件"@,
        TextKey::ToContinue => "続行するには"@,
        TextKey::PrerequisiteStepOne => "1. 公式リリースページから WinFsp をダウンロードします。"@,
        TextKey::PrerequisiteStepTwo => "2. MSI インストーラーを実行し、ドライバーのインストールを許可します。"@,
        TextKey::PrerequisiteStepThree => "3. ここに戻り、「再確認」を選択します。"@,
        TextKey::PrerequisiteNotice => "LinuxFS Manager は WinFsp をダウンロード、インストール、変更しません。"@,
        TextKey::DownloadWinFsp => "WinFsp をダウンロード"@,
        TextKey::Recheck => "再確認"@,
        TextKey::AutomaticLanguage => "自動（Windows）"@,
    }
}

fn japanese_copy(key: TextKey) -> (r: &'static str)
    ensures
        r@ == japanese_text(key),
{
    match key {
        TextKey::AppTitle => "LinuxFS Manager",
        TextKey::AppSubtitle => "Windows で Linux ファイルシステムを安全に読み取る",
        TextKey::ScanDrives => "ドライブをスキャン",
        TextKey::OpenImage => "イメージを開く…",
        TextKey::About => "バージョン情報",
        TextKey::Sources => "ソース",
        TextKey::SourcesSubtitle => "パーティションとイメージファイル",
        TextKey::SourcesEmpty => "ドライブをスキャンするか、イメージを開いて開始します。",
        TextKey::FilesystemDetails => "ファイルシステムの詳細",
        TextKey::OpenFilesystemImage => "ファイルシステムイメージを開く",
        TextKey::ImagePlaceholder => "イメージのパス（または「イメージを開く…」を使用）",
        TextKey::Mount => "マウント",
        TextKey::Unmount => "アンマウント",
        TextKey::OpenInExplorer => "エクスプローラーで開く",
        TextKey::Details => "詳細",
        TextKey::ReadOnlyWarning => "読み取り専用 — ソースファイルシステムは変更されません。",
        TextKey::Version => "バージョン",
        TextKey::AboutDescription => "LinuxFS Manager は、Windows の物理ディスク、パーティション、raw イメージファイルから Ext2/3/4、SquashFS、対応 XFS イメージへの安全な読み取り専用アクセスを提供します。",
        TextKey::Copyright => "LinuxFS Manager, @2026 Alfazen Inc. All rights reserved.",
        TextKey::Close => "閉じる",
        TextKey::PrerequisiteTitle => "WinFsp が必要です",
        TextKey::PrerequisiteSubtitle => "Windows ファイルシステムフレームワークの前提条件",
        TextKey::ToContinue => "続行するには",
        TextKey::PrerequisiteStepOne => "1. 公式リリースページから WinFsp をダウンロードします。",
        TextKey::PrerequisiteStepTwo => "2. MSI インストーラーを実行し、ドライバーのインストールを許可します。",
        TextKey::PrerequisiteStepThree => "3. ここに戻り、「再確認」を選択します。",
        TextKey::PrerequisiteNotice => "LinuxFS Manager は WinFsp をダウンロード、インストール、変更しません。",
        TextKey::DownloadWinFsp => "WinFsp をダウンロード",
        TextKey::Recheck => "再確認",
        TextKey::AutomaticLanguage => "自動（Windows）",
    }
}

/// The fixed interface text in Korean.
pub open spec fn korean_text(key: TextKey) -> Seq<char> {
    match key {
        TextKey::AppTitle => "LinuxFS Manager"@,
        TextKey::AppSubtitle => "Windows에서 Linux 파일 시스템을 안전하게 읽기"@,
        TextKey::ScanDrives => "드라이브 검색"@,
        TextKey::OpenImage => "이미지 열기…"@,
        TextKey::About => "정보"@,
        TextKey::Sources => "원본"@,
        TextKey::SourcesSubtitle => "파티션 및 이미지 파일"@,
        TextKey::SourcesEmpty => "드라이브를 검색하거나 이미지를 열어 시작하세요."@,
        TextKey::FilesystemDetails => "파일 시스템 세부 정보"@,
        TextKey::OpenFilesystemImage => "파일 시스템 이미지 열기"@,
        TextKey::ImagePlaceholder => "이미지 경로(또는 이미지 열기… 사용)"@,
        TextKey::Mount => "마운트"@,
        TextKey::Unmount => "마운트 해제"@,
        TextKey::OpenInExplorer => "탐색기에서 열기"@,
        TextKey::Details => "세부 정보"@,
        TextKey::ReadOnlyWarning => "읽기 전용 — 원본 파일 시스템은 절대 수정되지 않습니다."@,
        TextKey::Version => "버전"@,
        TextKey::AboutDescription => "LinuxFS Manager는 Windows 물리 디스크, 파티션 및 원시 이미지 파일에서 Ext2/3/4, SquashFS 및 지원되는 XFS 이미지에 대한 안전한 읽기 전용 액세스를 제공합니다."@,
        TextKey::Copyright => "LinuxFS Manager, @2026 Alfazen Inc. All rights reserved."@,
        TextKey::Close => "닫기"@,
        TextKey::PrerequisiteTitle => "WinFsp가 필요합니다"@,
        TextKey::PrerequisiteSubtitle => "Windows 파일 시스템 프레임워크 필수 구성 요소"@,
        TextKey::ToContinue => "계속하려면"@,
        TextKey::PrerequisiteStepOne => "1. 공식 릴리스 페이지에서 WinFsp를 다운로드하세요."@,
        TextKey::PrerequisiteStepTwo => "2. MSI 설치 관리자를 실행하고 드라이버 설치를 허용하세요."@,
        TextKey::PrerequisiteStepThree => "3. 여기로 돌아와 다시 확인을 선택하세요."@,
        TextKey::PrerequisiteNotice => "LinuxFS Manager는 WinFsp를 다운로드, 설치 또는 수정하지 않습니다."@,
        TextKey::DownloadWinFsp => "WinFsp 다운로드"@,
        TextKey::Recheck => "다시 확인"@,
        TextKey::AutomaticLanguage => "자동(Windows)"@,
    }
}

fn korean_copy(key: TextKey) -> (r: &'static str)
    ensures
        r@ == korean_text(key),
{
    match key {
        TextKey::AppTitle => "LinuxFS Manager",
        TextKey::AppSubtitle => "Windows에서 Linux 파일 시스템을 안전하게 읽기",
        TextKey::ScanDrives => "드라이브 검색",
        TextKey::OpenImage => "이미지 열기…",
        TextKey::About => "정보",
        TextKey::Sources => "원본",
        TextKey::SourcesSubtitle => "파티션 및 이미지 파일",
        TextKey::SourcesEmpty => "드라이브를 검색하거나 이미지를 열어 시작하세요.",
        TextKey::FilesystemDetails => "파일 시스템 세부 정보",
        TextKey::OpenFilesystemImage => "파일 시스템 이미지 열기",
        TextKey::ImagePlaceholder => "이미지 경로(또는 이미지 열기… 사용)",
        TextKey::Mount => "마운트",
        TextKey::Unmount => "마운트 해제",
        TextKey::OpenInExplorer => "탐색기에서 열기",
        TextKey::Details => "세부 정보",
        TextKey::ReadOnlyWarning => "읽기 전용 — 원본 파일 시스템은 절대 수정되지 않습니다.",
        TextKey::Version => "버전",
        TextKey::AboutDescription => "LinuxFS Manager는 Windows 물리 디스크, 파티션 및 원시 이미지 파일에서 Ext2/3/4, SquashFS 및 지원되는 XFS 이미지에 대한 안전한 읽기 전용 액세스를 제공합니다.",
        TextKey::Copyright => "LinuxFS Manager, @2026 Alfazen Inc. All rights reserved.",
        TextKey::Close => "닫기",
        TextKey::PrerequisiteTitle => "WinFsp가 필요합니다",
        TextKey::PrerequisiteSubtitle => "Windows 파일 시스템 프레임워크 필수 구성 요소",
        TextKey::ToContinue => "계속하려면",
        TextKey::PrerequisiteStepOne => "1. 공식 릴리스 페이지에서 WinFsp를 다운로드하세요.",
        TextKey::PrerequisiteStepTwo => "2. MSI 설치 관리자를 실행하고 드라이버 설치를 허용하세요.",
        TextKey::PrerequisiteStepThree => "3. 여기로 돌아와 다시 확인을 선택하세요.",
        TextKey::PrerequisiteNotice => "LinuxFS Manager는 WinFsp를 다운로드, 설치 또는 수정하지 않습니다.",
        TextKey::DownloadWinFsp => "WinFsp 다운로드",
        TextKey::Recheck => "다시 확인",
        TextKey::AutomaticLanguage => "자동(Windows)",
    }
}

/// The fixed interface text `key` in `language`.
pub open spec fn ui_text(language: UiLanguage, key: TextKey) -> Seq<char> {
    match language {
        UiLanguage::English => english_text(key),
        UiLanguage::French => french_text(key),
        UiLanguage::German => german_text(key),
        UiLanguage::Spanish => spanish_text(key),
        UiLanguage::PortugueseBrazil => portuguese_brazil_text(key),
        UiLanguage::Italian => italian_text(key),
        UiLanguage::Polish => polish_text(key),
        UiLanguage::Russian => russian_text(key),
        UiLanguage::ChineseSimplified => chinese_simplified_text(key),
        UiLanguage::ChineseTraditional => chinese_traditional_text(key),
        UiLanguage::Japanese => japanese_text(key),
        UiLanguage::Korean => korean_text(key),
    }
}

/// The fixed interface text `key` in `language`.
pub fn text(language: UiLanguage, key: TextKey) -> (r: &'static str)
    ensures
        r@ == ui_text(language, key),
{
    match language {
        UiLanguage::English => english_copy(key),
        UiLanguage::French => french_copy(key),
        UiLanguage::German => german_copy(key),
        UiLanguage::Spanish => spanish_copy(key),
        UiLanguage::PortugueseBrazil => portuguese_brazil_copy(key),
        UiLanguage::Italian => italian_copy(key),
        UiLanguage::Polish => polish_copy(key),
        UiLanguage::Russian => russian_copy(key),
        UiLanguage::ChineseSimplified => chinese_simplified_copy(key),
        UiLanguage::ChineseTraditional => chinese_traditional_copy(key),
        UiLanguage::Japanese => japanese_copy(key),
        UiLanguage::Korean => korean_copy(key),
    }
}

/// A status message, some of which carry a value such as a mount point or an error.
#[derive(Clone, Copy, Debug, PartialEq, Eq, Structural)]
pub enum DynamicKey {
    Ready,
    RefreshFailed,
    Mounting,
    Mounted,
    Unmounting,
    Unmounted,
    MountFailed,
    UnmountFailed,
    ExplorerOpened,
    ExistingMountAvailable,
}

impl DynamicKey {
    /// Whether the message carries a value.
    pub open spec fn carries_value(self) -> bool {
        match self {
            DynamicKey::Ready => false,
            DynamicKey::RefreshFailed => true,
            DynamicKey::Mounting => false,
            DynamicKey::Mounted => true,
            DynamicKey::Unmounting => false,
            DynamicKey::Unmounted => false,
            DynamicKey::MountFailed => true,
            DynamicKey::UnmountFailed => true,
            DynamicKey::ExplorerOpened => true,
            DynamicKey::ExistingMountAvailable => true,
        }
    }

    /// Whether the message carries a value.
    pub fn takes_value(self) -> (r: bool)
        ensures
            r == self.carries_value(),
    {
        match self {
            DynamicKey::Ready => false,
            DynamicKey::RefreshFailed => true,
            DynamicKey::Mounting => false,
            DynamicKey::Mounted => true,
            DynamicKey::Unmounting => false,
            DynamicKey::Unmounted => false,
            DynamicKey::MountFailed => true,
            DynamicKey::UnmountFailed => true,
            DynamicKey::ExplorerOpened => true,
            DynamicKey::ExistingMountAvailable => true,
        }
    }
}

/// The status messages in English: the text before the value and the text after it,
/// or the whole message and nothing where it carries no value.
pub open spec fn english_status(key: DynamicKey) -> (Seq<char>, Seq<char>) {
    match key {
        DynamicKey::Ready => ("Ready."@, ""@),
        DynamicKey::RefreshFailed => ("Refresh failed: "@, ""@),
        DynamicKey::Mounting => ("Mounting read-only…"@, ""@),
        DynamicKey::Mounted => ("Mounted read-only on "@, " — source unchanged"@),
        DynamicKey::Unmounting => ("Unmounting…"@, ""@),
        DynamicKey::Unmounted => ("Unmount completed"@, ""@),
        DynamicKey::MountFailed => ("Mount failed: "@, ""@),
        DynamicKey::UnmountFailed => ("Unmount failed: "@, ""@),
        DynamicKey::ExplorerOpened => ("Opened "@, " in Explorer"@),
        DynamicKey::ExistingMountAvailable => ("Existing mount remains available: "@, ""@),
    }
}

fn english_status_parts(key: DynamicKey) -> (r: (&'static str, &'static str))
    ensures
        r.0@ == english_status(key).0,
        r.1@ == english_status(key).1,
{
    match key {
        DynamicKey::Ready => ("Ready.", ""),
        DynamicKey::RefreshFailed => ("Refresh failed: ", ""),
        DynamicKey::Mounting => ("Mounting read-only…", ""),
        DynamicKey::Mounted => ("Mounted read-only on ", " — source unchanged"),
        DynamicKey::Unmounting => ("Unmounting…", ""),
        DynamicKey::Unmounted => ("Unmount completed", ""),
        DynamicKey::MountFailed => ("Mount failed: ", ""),
        DynamicKey::UnmountFailed => ("Unmount failed: ", ""),
        DynamicKey::ExplorerOpened => ("Opened ", " in Explorer"),
        DynamicKey::ExistingMountAvailable => ("Existing mount remains available: ", ""),
    }
}

/// The status messages in French: the text before the value and the text after it,
/// or the whole message and nothing where it carries no value.
pub open spec fn french_status(key: DynamicKey) -> (Seq<char>, Seq<char>) {
    match key {
        DynamicKey::Ready => ("Prêt."@, ""@),
        DynamicKey::RefreshFailed => ("Actualisation échouée : "@, ""@),
        DynamicKey::Mounting => ("Montage en lecture seule…"@, ""@),
        DynamicKey::Mounted => ("Monté en lecture seule sur "@, " — source inchangée"@),
        DynamicKey::Unmounting => ("Démontage…"@, ""@),
        DynamicKey::Unmounted => ("Démontage terminé"@, ""@),
        DynamicKey::MountFailed => ("Échec du montage : "@, ""@),
        DynamicKey::UnmountFailed => ("Échec du démontage : "@, ""@),
        DynamicKey::ExplorerOpened => (""@, " ouvert dans l’Explorateur"@),
        DynamicKey::ExistingMountAvailable => ("Le montage existant reste disponible : "@, ""@),
    }
}

fn french_status_parts(key: DynamicKey) -> (r: (&'static str, &'static str))
    ensures
        r.0@ == french_status(key).0,
        r.1@ == french_status(key).1,
{
    match key {
        DynamicKey::Ready => ("Prêt.", ""),
        DynamicKey::RefreshFailed => ("Actualisation échouée : ", ""),
        DynamicKey::Mounting => ("Montage en lecture seule…", ""),
        DynamicKey::Mounted => ("Monté en lecture seule sur ", " — source inchangée"),
        DynamicKey::Unmounting => ("Démontage…", ""),
        DynamicKey::Unmounted => ("Démontage terminé", ""),
        DynamicKey::MountFailed => ("Échec du montage : ", ""),
        DynamicKey::UnmountFailed => ("Échec du démontage : ", ""),
        DynamicKey::ExplorerOpened => ("", " ouvert dans l’Explorateur"),
        DynamicKey::ExistingMountAvailable => ("Le montage existant reste disponible : ", ""),
    }
}

/// The status messages in German: the text before the value and the text after it,
/// or the whole message and nothing where it carries no value.
pub open spec fn german_status(key: DynamicKey) -> (Seq<char>, Seq<char>) {
    match key {
        DynamicKey::Ready => ("Bereit."@, ""@),
        DynamicKey::RefreshFailed => ("Aktualisierung fehlgeschlagen: "@, ""@),
        DynamicKey::Mounting => ("Schreibgeschützt einbinden…"@, ""@),
        DynamicKey::Mounted => ("Schreibgeschützt auf "@, " eingebunden — Quelle unverändert"@),
        DynamicKey::Unmounting => ("Aushängen…"@, ""@),
        DynamicKey::Unmounted => ("Aushängen abgeschlossen"@, ""@),
        DynamicKey::MountFailed => ("Einbinden fehlgeschlagen: "@, ""@),
        DynamicKey::UnmountFailed => ("Aushängen fehlgeschlagen: "@, ""@),
        DynamicKey::ExplorerOpened => (""@, " im Explorer geöffnet"@),
        DynamicKey::ExistingMountAvailable => ("Vorhandene Einbindung bleibt verfügbar: "@, ""@),
    }
}

fn german_status_parts(key: DynamicKey) -> (r: (&'static str, &'static str))
    ensures
        r.0@ == german_status(key).0,
        r.1@ == german_status(key).1,
{
    match key {
        DynamicKey::Ready => ("Bereit.", ""),
        DynamicKey::RefreshFailed => ("Aktualisierung fehlgeschlagen: ", ""),
        DynamicKey::Mounting => ("Schreibgeschützt einbinden…", ""),
        DynamicKey::Mounted => ("Schreibgeschützt auf ", " eingebunden — Quelle unverändert"),
        DynamicKey::Unmounting => ("Aushängen…", ""),
        DynamicKey::Unmounted => ("Aushängen abgeschlossen", ""),
        DynamicKey::MountFailed => ("Einbinden fehlgeschlagen: ", ""),
        DynamicKey::UnmountFailed => ("Aushängen fehlgeschlagen: ", ""),
        DynamicKey::ExplorerOpened => ("", " im Explorer geöffnet"),
        DynamicKey::ExistingMountAvailable => ("Vorhandene Einbindung bleibt verfügbar: ", ""),
    }
}

/// The status messages in Spanish: the text before the value and the text after it,
/// or the whole message and nothing where it carries no value.
pub open spec fn spanish_status(key: DynamicKey) -> (Seq<char>, Seq<char>) {
    match key {
        DynamicKey::Ready => ("Listo."@, ""@),
        DynamicKey::RefreshFailed => ("Error de actualización: "@, ""@),
        DynamicKey::Mounting => ("Montando en solo lectura…"@, ""@),
        DynamicKey::Mounted => ("Montado en solo lectura en "@, " — origen sin cambios"@),
        DynamicKey::Unmounting => ("Desmontando…"@, ""@),
        DynamicKey::Unmounted => ("Desmontaje completado"@, ""@),
        DynamicKey::MountFailed => ("Error al montar: "@, ""@),
        DynamicKey::UnmountFailed => ("Error al desmontar: "@, ""@),
        DynamicKey::ExplorerOpened => (""@, " abierto en el Explorador"@),
        DynamicKey::ExistingMountAvailable => ("El montaje existente sigue disponible: "@, ""@),
    }
}

fn spanish_status_parts(key: DynamicKey) -> (r: (&'static str, &'static str))
    ensures
        r.0@ == spanish_status(key).0,
        r.1@ == spanish_status(key).1,
{
    match key {
        DynamicKey::Ready => ("Listo.", ""),
        DynamicKey::RefreshFailed => ("Error de actualización: ", ""),
        DynamicKey::Mounting => ("Montando en solo lectura…", ""),
        DynamicKey::Mounted => ("Montado en solo lectura en ", " — origen sin cambios"),
        DynamicKey::Unmounting => ("Desmontando…", ""),
        DynamicKey::Unmounted => ("Desmontaje completado", ""),
        DynamicKey::MountFailed => ("Error al montar: ", ""),
        DynamicKey::UnmountFailed => ("Error al desmontar: ", ""),
        DynamicKey::ExplorerOpened => ("", " abierto en el Explorador"),
        DynamicKey::ExistingMountAvailable => ("El montaje existente sigue disponible: ", ""),
    }
}

/// The status messages in PortugueseBrazil: the text before the value and the text after it,
/// or the whole message and nothing where it carries no value.
pub open spec fn portuguese_brazil_status(key: DynamicKey) -> (Seq<char>, Seq<char>) {
    match key {
        DynamicKey::Ready => ("Pronto."@, ""@),
        DynamicKey::RefreshFailed => ("Falha ao atualizar: "@, ""@),
        DynamicKey::Mounting => ("Montando somente leitura…"@, ""@),
        DynamicKey::Mounted => ("Montado somente leitura em "@, " — origem inalterada"@),
        DynamicKey::Unmounting => ("Desmontando…"@, ""@),
        DynamicKey::Unmounted => ("Desmontagem concluída"@, ""@),
        DynamicKey::MountFailed => ("Falha ao montar: "@, ""@),
        DynamicKey::UnmountFailed => ("Falha ao desmontar: "@, ""@),
        DynamicKey::ExplorerOpened => (""@, " aberto no Explorador"@),
        DynamicKey::ExistingMountAvailable => ("A montagem existente permanece disponível: "@, ""@),
    }
}

fn portuguese_brazil_status_parts(key: DynamicKey) -> (r: (&'static str, &'static str))
    ensures
        r.0@ == portuguese_brazil_status(key).0,
        r.1@ == portuguese_brazil_status(key).1,
{
    match key {
        DynamicKey::Ready => ("Pronto.", ""),
        DynamicKey::RefreshFailed => ("Falha ao atualizar: ", ""),
        DynamicKey::Mounting => ("Montando somente leitura…", ""),
        DynamicKey::Mounted => ("Montado somente leitura em ", " — origem inalterada"),
        DynamicKey::Unmounting => ("Desmontando…", ""),
        DynamicKey::Unmounted => ("Desmontagem concluída", ""),
        DynamicKey::MountFailed => ("Falha ao montar: ", ""),
        DynamicKey::UnmountFailed => ("Falha ao desmontar: ", ""),
        DynamicKey::ExplorerOpened => ("", " aberto no Explorador"),
        DynamicKey::ExistingMountAvailable => ("A montagem existente permanece disponível: ", ""),
    }
}

/// The status messages in Italian: the text before the value and the text after it,
/// or the whole message and nothing where it carries no value.
pub open spec fn italian_status(key: DynamicKey) -> (Seq<char>, Seq<char>) {
    match key {
        DynamicKey::Ready => ("Pronto."@, ""@),
        DynamicKey::RefreshFailed => ("Aggiornamento non riuscito: "@, ""@),
        DynamicKey::Mounting => ("Montaggio in sola lettura…"@, ""@),
        DynamicKey::Mounted => ("Montato in sola lettura su "@, " — origine invariata"@),
        DynamicKey::Unmounting => ("Smontaggio…"@, ""@),
        DynamicKey::Unmounted => ("Smontaggio completato"@, ""@),
        DynamicKey::MountFailed => ("Montaggio non riuscito: "@, ""@),
        DynamicKey::UnmountFailed => ("Smontaggio non riuscito: "@, ""@),
        DynamicKey::ExplorerOpened => (""@, " aperto in Esplora file"@),
        DynamicKey::ExistingMountAvailable => ("Il montaggio esistente rimane disponibile: "@, ""@),
    }
}

fn italian_status_parts(key: DynamicKey) -> (r: (&'static str, &'static str))
    ensures
        r.0@ == italian_status(key).0,
        r.1@ == italian_status(key).1,
{
    match key {
        DynamicKey::Ready => ("Pronto.", ""),
        DynamicKey::RefreshFailed => ("Aggiornamento non riuscito: ", ""),
        DynamicKey::Mounting => ("Montaggio in sola lettura…", ""),
        DynamicKey::Mounted => ("Montato in sola lettura su ", " — origine invariata"),
        DynamicKey::Unmounting => ("Smontaggio…", ""),
        DynamicKey::Unmounted => ("Smontaggio completato", ""),
        DynamicKey::MountFailed => ("Montaggio non riuscito: ", ""),
        DynamicKey::UnmountFailed => ("Smontaggio non riuscito: ", ""),
        DynamicKey::ExplorerOpened => ("", " aperto in Esplora file"),
        DynamicKey::ExistingMountAvailable => ("Il montaggio esistente rimane disponibile: ", ""),
    }
}

/// The status messages in Polish: the text before the value and the text after it,
/// or the whole message and nothing where it carries no value.
pub open spec fn polish_status(key: DynamicKey) -> (Seq<char>, Seq<char>) {
    match key {
        DynamicKey::Ready => ("Gotowe."@, ""@),
        DynamicKey::RefreshFailed => ("Odświeżanie nie powiodło się: "@, ""@),
        DynamicKey::Mounting => ("Montowanie tylko do odczytu…"@, ""@),
        DynamicKey::Mounted => ("Zamontowano tylko do odczytu w "@, " — źródło niezmienione"@),
        DynamicKey::Unmounting => ("Odmontowywanie…"@, ""@),
        DynamicKey::Unmounted => ("Odmontowanie zakończone"@, ""@),
        DynamicKey::MountFailed => ("Montowanie nie powiodło się: "@, ""@),
        DynamicKey::UnmountFailed => ("Odmontowanie nie powiodło się: "@, ""@),
        DynamicKey::ExplorerOpened => ("Otwarto "@, " w Eksploratorze"@),
        DynamicKey::ExistingMountAvailable => ("Istniejące montowanie pozostaje dostępne: "@, ""@),
    }
}

fn polish_status_parts(key: DynamicKey) -> (r: (&'static str, &'static str))
    ensures
        r.0@ == polish_status(key).0,
        r.1@ == polish_status(key).1,
{
    match key {
        DynamicKey::Ready => ("Gotowe.", ""),
        DynamicKey::RefreshFailed => ("Odświeżanie nie powiodło się: ", ""),
        DynamicKey::Mounting => ("Montowanie tylko do odczytu…", ""),
        DynamicKey::Mounted => ("Zamontowano tylko do odczytu w ", " — źródło niezmienione"),
        DynamicKey::Unmounting => ("Odmontowywanie…", ""),
        DynamicKey::Unmounted => ("Odmontowanie zakończone", ""),
        DynamicKey::MountFailed => ("Montowanie nie powiodło się: ", ""),
        DynamicKey::UnmountFailed => ("Odmontowanie nie powiodło się: ", ""),
        DynamicKey::ExplorerOpened => ("Otwarto ", " w Eksploratorze"),
        DynamicKey::ExistingMountAvailable => ("Istniejące montowanie pozostaje dostępne: ", ""),
    }
}

/// The status messages in Russian: the text before the value and the text after it,
/// or the whole message and nothing where it carries no value.
pub open spec fn russian_status(key: DynamicKey) -> (Seq<char>, Seq<char>) {
    match key {
        DynamicKey::Ready => ("Готово."@, ""@),
        DynamicKey::RefreshFailed => ("Не удалось обновить: "@, ""@),
        DynamicKey::Mounting => ("Подключение только для чтения…"@, ""@),
        DynamicKey::Mounted => ("Подключено только для чтения в "@, " — источник не изменён"@),
        DynamicKey::Unmounting => ("Отключение…"@, ""@),
        DynamicKey::Unmounted => ("Отключение завершено"@, ""@),
        DynamicKey::MountFailed => ("Не удалось подключить: "@, ""@),
        DynamicKey::UnmountFailed => ("Не удалось отключить: "@, ""@),
        DynamicKey::ExplorerOpened => (""@, " открыт в Проводнике"@),
        DynamicKey::ExistingMountAvailable => ("Существующее подключение остаётся доступным: "@, ""@),
    }
}

fn russian_status_parts(key: DynamicKey) -> (r: (&'static str, &'static str))
    ensures
        r.0@ == russian_status(key).0,
        r.1@ == russian_status(key).1,
{
    match key {
        DynamicKey::Ready => ("Готово.", ""),
        DynamicKey::RefreshFailed => ("Не удалось обновить: ", ""),
        DynamicKey::Mounting => ("Подключение только для чтения…", ""),
        DynamicKey::Mounted => ("Подключено только для чтения в ", " — источник не изменён"),
        DynamicKey::Unmounting => ("Отключение…", ""),
        DynamicKey::Unmounted => ("Отключение завершено", ""),
        DynamicKey::MountFailed => ("Не удалось подключить: ", ""),
        DynamicKey::UnmountFailed => ("Не удалось отключить: ", ""),
        DynamicKey::ExplorerOpened => ("", " открыт в Проводнике"),
        DynamicKey::ExistingMountAvailable => ("Существующее подключение остаётся доступным: ", ""),
    }
}

/// The status messages in ChineseSimplified: the text before the value and the text after it,
/// or the whole message and nothing where it carries no value.
pub open spec fn chinese_simplified_status(key: DynamicKey) -> (Seq<char>, Seq<char>) {
    match key {
        DynamicKey::Ready => ("就绪。"@, ""@),
        DynamicKey::RefreshFailed => ("刷新失败："@, ""@),
        DynamicKey::Mounting => ("正在以只读方式挂载…"@, ""@),
        DynamicKey::Mounted => ("已在 "@, " 以只读方式挂载 — 源未更改"@),
        DynamicKey::Unmounting => ("正在卸载…"@, ""@),
        DynamicKey::Unmounted => ("卸载完成"@, ""@),
        DynamicKey::MountFailed => ("挂载失败："@, ""@),
        DynamicKey::UnmountFailed => ("卸载失败："@, ""@),
        DynamicKey::ExplorerOpened => ("已在资源管理器中打开 "@, ""@),
        DynamicKey::ExistingMountAvailable => ("现有挂载仍可用："@, ""@),
    }
}

fn chinese_simplified_status_parts(key: DynamicKey) -> (r: (&'static str, &'static str))
    ensures
        r.0@ == chinese_simplified_status(key).0,
        r.1@ == chinese_simplified_status(key).1,
{
    match key {
        DynamicKey::Ready => ("就绪。", ""),
        DynamicKey::RefreshFailed => ("刷新失败：", ""),
        DynamicKey::Mounting => ("正在以只读方式挂载…", ""),
        DynamicKey::Mounted => ("已在 ", " 以只读方式挂载 — 源未更改"),
        DynamicKey::Unmounting => ("正在卸载…", ""),
        DynamicKey::Unmounted => ("卸载完成", ""),
        DynamicKey::MountFailed => ("挂载失败：", ""),
        DynamicKey::UnmountFailed => ("卸载失败：", ""),
        DynamicKey::ExplorerOpened => ("已在资源管理器中打开 ", ""),
        DynamicKey::ExistingMountAvailable => ("现有挂载仍可用：", ""),
    }
}

/// The status messages in ChineseTraditional: the text before the value and the text after it,
/// or the whole message and nothing where it carries no value.
pub open spec fn chinese_traditional_status(key: DynamicKey) -> (Seq<char>, Seq<char>) {
    match key {
        DynamicKey::Ready => ("就緒。"@, ""@),
        DynamicKey::RefreshFailed => ("重新整理失敗："@, ""@),
        DynamicKey::Mounting => ("正在以唯讀方式掛載…"@, ""@),
        DynamicKey::Mounted => ("已在 "@, " 以唯讀方式掛載 — 來源未變更"@),
        DynamicKey::Unmounting => ("正在卸載…"@, ""@),
        DynamicKey::Unmounted => ("卸載完成"@, ""@),
        DynamicKey::MountFailed => ("掛載失敗："@, ""@),
        DynamicKey::UnmountFailed => ("卸載失敗："@, ""@),
        DynamicKey::ExplorerOpened => ("已在檔案總管中開啟 "@, ""@),
        DynamicKey::ExistingMountAvailable => ("現有掛載仍可用："@, ""@),
    }
}

fn chinese_traditional_status_parts(key: DynamicKey) -> (r: (&'static str, &'static str))
    ensures
        r.0@ == chinese_traditional_status(key).0,
        r.1@ == chinese_traditional_status(key).1,
{
    match key {
        DynamicKey::Ready => ("就緒。", ""),
        DynamicKey::RefreshFailed => ("重新整理失敗：", ""),
        DynamicKey::Mounting => ("正在以唯讀方式掛載…", ""),
        DynamicKey::Mounted => ("已在 ", " 以唯讀方式掛載 — 來源未變更"),
        DynamicKey::Unmounting => ("正在卸載…", ""),
        DynamicKey::Unmounted => ("卸載完成", ""),
        DynamicKey::MountFailed => ("掛載失敗：", ""),
        DynamicKey::UnmountFailed => ("卸載失敗：", ""),
        DynamicKey::ExplorerOpened => ("已在檔案總管中開啟 ", ""),
        DynamicKey::ExistingMountAvailable => ("現有掛載仍可用：", ""),
    }
}

/// The status messages in Japanese: the text before the value and the text after it,
/// or the whole message and nothing where it carries no value.
pub open spec fn japanese_status(key: DynamicKey) -> (Seq<char>, Seq<char>) {
    match key {
        DynamicKey::Ready => ("準備完了。"@, ""@),
        DynamicKey::RefreshFailed => ("更新に失敗しました: "@, ""@),
        DynamicKey::Mounting => ("読み取り専用でマウント中…"@, ""@),
        DynamicKey::Mounted => (""@, " に読み取り専用でマウント済み — ソースは変更されていません"@),
        DynamicKey::Unmounting => ("アンマウント中…"@, ""@),
        DynamicKey::Unmounted => ("アンマウントが完了しました"@, ""@),
        DynamicKey::MountFailed => ("マウントに失敗しました: "@, ""@),
        DynamicKey::UnmountFailed => ("アンマウントに失敗しました: "@, ""@),
        DynamicKey::ExplorerOpened => ("エクスプローラーで "@, " を開きました"@),
        DynamicKey::ExistingMountAvailable => ("既存のマウントは引き続き利用できます: "@, ""@),
    }
}

fn japanese_status_parts(key: DynamicKey) -> (r: (&'static str, &'static str))
    ensures
        r.0@ == japanese_status(key).0,
        r.1@ == japanese_status(key).1,
{
    match key {
        DynamicKey::Ready => ("準備完了。", ""),
        DynamicKey::RefreshFailed => ("更新に失敗しました: ", ""),
        DynamicKey::Mounting => ("読み取り専用でマウント中…", ""),
        DynamicKey::Mounted => ("", " に読み取り専用でマウント済み — ソースは変更されていません"),
        DynamicKey::Unmounting => ("アンマウント中…", ""),
        DynamicKey::Unmounted => ("アンマウントが完了しました", ""),
        DynamicKey::MountFailed => ("マウントに失敗しました: ", ""),
        DynamicKey::UnmountFailed => ("アンマウントに失敗しました: ", ""),
        DynamicKey::ExplorerOpened => ("エクスプローラーで ", " を開きました"),
        DynamicKey::ExistingMountAvailable => ("既存のマウントは引き続き利用できます: ", ""),
    }
}

/// The status messages in Korean: the text before the value and the text after it,
/// or the whole message and nothing where it carries no value.
pub open spec fn korean_status(key: DynamicKey) -> (Seq<char>, Seq<char>) {
    match key {
        DynamicKey::Ready => ("준비되었습니다."@, ""@),
        DynamicKey::RefreshFailed => ("새로 고침 실패: "@, ""@),
        DynamicKey::Mounting => ("읽기 전용으로 마운트하는 중…"@, ""@),
        DynamicKey::Mounted => (""@, "에 읽기 전용으로 마운트됨 — 원본이 변경되지 않았습니다"@),
        DynamicKey::Unmounting => ("마운트 해제 중…"@, ""@),
        DynamicKey::Unmounted => ("마운트 해제 완료"@, ""@),
        DynamicKey::MountFailed => ("마운트 실패: "@, ""@),
        DynamicKey::UnmountFailed => ("마운트 해제 실패: "@, ""@),
        DynamicKey::ExplorerOpened => ("탐색기에서 "@, " 열림"@),
        DynamicKey::ExistingMountAvailable => ("기존 마운트는 계속 사용할 수 있습니다: "@, ""@),
    }
}

fn korean_status_parts(key: DynamicKey) -> (r: (&'static str, &'static str))
    ensures
        r.0@ == korean_status(key).0,
        r.1@ == korean_status(key).1,
{
    match key {
        DynamicKey::Ready => ("준비되었습니다.", ""),
        DynamicKey::RefreshFailed => ("새로 고침 실패: ", ""),
        DynamicKey::Mounting => ("읽기 전용으로 마운트하는 중…", ""),
        DynamicKey::Mounted => ("", "에 읽기 전용으로 마운트됨 — 원본이 변경되지 않았습니다"),
        DynamicKey::Unmounting => ("마운트 해제 중…", ""),
        DynamicKey::Unmounted => ("마운트 해제 완료", ""),
        DynamicKey::MountFailed => ("마운트 실패: ", ""),
        DynamicKey::UnmountFailed => ("마운트 해제 실패: ", ""),
        DynamicKey::ExplorerOpened => ("탐색기에서 ", " 열림"),
        DynamicKey::ExistingMountAvailable => ("기존 마운트는 계속 사용할 수 있습니다: ", ""),
    }
}

/// The parts of status message `key` in `language`.
pub open spec fn status_parts(language: UiLanguage, key: DynamicKey) -> (Seq<char>, Seq<char>) {
    match language {
        UiLanguage::English => english_status(key),
        UiLanguage::French => french_status(key),
        UiLanguage::German => german_status(key),
        UiLanguage::Spanish => spanish_status(key),
        UiLanguage::PortugueseBrazil => portuguese_brazil_status(key),
        UiLanguage::Italian => italian_status(key),
        UiLanguage::Polish => polish_status(key),
        UiLanguage::Russian => russian_status(key),
        UiLanguage::ChineseSimplified => chinese_simplified_status(key),
        UiLanguage::ChineseTraditional => chinese_traditional_status(key),
        UiLanguage::Japanese => japanese_status(key),
        UiLanguage::Korean => korean_status(key),
    }
}

/// Status message `key` in `language`, with `value` in its place where the
/// message carries one.
pub open spec fn status_text(language: UiLanguage, key: DynamicKey, value: Seq<char>) -> Seq<char> {
    let parts = status_parts(language, key);
    if key.carries_value() {
        parts.0 + value + parts.1
    } else {
        parts.0
    }
}

/// Status message `key` in `language`, with `value` in its place where it carries one.
pub fn dynamic(language: UiLanguage, key: DynamicKey, value: &str) -> (r: String)
    ensures
        r@ == status_text(language, key, value@),
{
    let parts = match language {
        UiLanguage::English => english_status_parts(key),
        UiLanguage::French => french_status_parts(key),
        UiLanguage::German => german_status_parts(key),
        UiLanguage::Spanish => spanish_status_parts(key),
        UiLanguage::PortugueseBrazil => portuguese_brazil_status_parts(key),
        UiLanguage::Italian => italian_status_parts(key),
        UiLanguage::Polish => polish_status_parts(key),
        UiLanguage::Russian => russian_status_parts(key),
        UiLanguage::ChineseSimplified => chinese_simplified_status_parts(key),
        UiLanguage::ChineseTraditional => chinese_traditional_status_parts(key),
        UiLanguage::Japanese => japanese_status_parts(key),
        UiLanguage::Korean => korean_status_parts(key),
    };
    let mut message = String::from_str(parts.0);
    if key.takes_value() {
        message.append(value);
        message.append(parts.1);
    }
    message
}

/// The fixed interface text of one language.
#[derive(Clone, Copy, Debug)]
pub struct UiCopy {
    pub language: UiLanguage,
    pub app_title: &'static str,
    pub app_subtitle: &'static str,
    pub scan_drives: &'static str,
    pub open_image: &'static str,
    pub about: &'static str,
    pub sources: &'static str,
    pub sources_subtitle: &'static str,
    pub sources_empty: &'static str,
    pub filesystem_details: &'static str,
    pub open_filesystem_image: &'static str,
    pub image_placeholder: &'static str,
    pub mount: &'static str,
    pub unmount: &'static str,
    pub open_in_explorer: &'static str,
    pub details: &'static str,
    pub read_only_warning: &'static str,
    pub version: &'static str,
    pub about_description: &'static str,
    pub copyright: &'static str,
    pub close: &'static str,
    pub prerequisite_title: &'static str,
    pub prerequisite_subtitle: &'static str,
    pub to_continue: &'static str,
    pub prerequisite_step_one: &'static str,
    pub prerequisite_step_two: &'static str,
    pub prerequisite_step_three: &'static str,
    pub prerequisite_notice: &'static str,
    pub download_winfsp: &'static str,
    pub recheck: &'static str,
    pub automatic_language: &'static str,
}

impl UiCopy {
    /// Whether every text of the copy is the catalog text of `language`.
    pub open spec fn is_catalog_of(self, language: UiLanguage) -> bool {
        &&& self.language == language
        &&& self.app_title@ == ui_text(language, TextKey::AppTitle)
        &&& self.app_subtitle@ == ui_text(language, TextKey::AppSubtitle)
        &&& self.scan_drives@ == ui_text(language, TextKey::ScanDrives)
        &&& self.open_image@ == ui_text(language, TextKey::OpenImage)
        &&& self.about@ == ui_text(language, TextKey::About)
        &&& self.sources@ == ui_text(language, TextKey::Sources)
        &&& self.sources_subtitle@ == ui_text(language, TextKey::SourcesSubtitle)
        &&& self.sources_empty@ == ui_text(language, TextKey::SourcesEmpty)
        &&& self.filesystem_details@ == ui_text(language, TextKey::FilesystemDetails)
        &&& self.open_filesystem_image@ == ui_text(language, TextKey::OpenFilesystemImage)
        &&& self.image_placeholder@ == ui_text(language, TextKey::ImagePlaceholder)
        &&& self.mount@ == ui_text(language, TextKey::Mount)
        &&& self.unmount@ == ui_text(language, TextKey::Unmount)
        &&& self.open_in_explorer@ == ui_text(language, TextKey::OpenInExplorer)
        &&& self.details@ == ui_text(language, TextKey::Details)
        &&& self.read_only_warning@ == ui_text(language, TextKey::ReadOnlyWarning)
        &&& self.version@ == ui_text(language, TextKey::Version)
        &&& self.about_description@ == ui_text(language, TextKey::AboutDescription)
        &&& self.copyright@ == ui_text(language, TextKey::Copyright)
        &&& self.close@ == ui_text(language, TextKey::Close)
        &&& self.prerequisite_title@ == ui_text(language, TextKey::PrerequisiteTitle)
        &&& self.prerequisite_subtitle@ == ui_text(language, TextKey::PrerequisiteSubtitle)
        &&& self.to_continue@ == ui_text(language, TextKey::ToContinue)
        &&& self.prerequisite_step_one@ == ui_text(language, TextKey::PrerequisiteStepOne)
        &&& self.prerequisite_step_two@ == ui_text(language, TextKey::PrerequisiteStepTwo)
        &&& self.prerequisite_step_three@ == ui_text(language, TextKey::PrerequisiteStepThree)
        &&& self.prerequisite_notice@ == ui_text(language, TextKey::PrerequisiteNotice)
        &&& self.download_winfsp@ == ui_text(language, TextKey::DownloadWinFsp)
        &&& self.recheck@ == ui_text(language, TextKey::Recheck)
        &&& self.automatic_language@ == ui_text(language, TextKey::AutomaticLanguage)
    }

    fn new(language: UiLanguage) -> (r: Self)
        ensures
            r.is_catalog_of(language),
    {
        UiCopy {
            language,
            app_title: text(language, TextKey::AppTitle),
            app_subtitle: text(language, TextKey::AppSubtitle),
            scan_drives: text(language, TextKey::ScanDrives),
            open_image: text(language, TextKey::OpenImage),
            about: text(language, TextKey::About),
            sources: text(language, TextKey::Sources),
            sources_subtitle: text(language, TextKey::SourcesSubtitle),
            sources_empty: text(language, TextKey::SourcesEmpty),
            filesystem_details: text(language, TextKey::FilesystemDetails),
            open_filesystem_image: text(language, TextKey::OpenFilesystemImage),
            image_placeholder: text(language, TextKey::ImagePlaceholder),
            mount: text(language, TextKey::Mount),
            unmount: text(language, TextKey::Unmount),
            open_in_explorer: text(language, TextKey::OpenInExplorer),
            details: text(language, TextKey::Details),
            read_only_warning: text(language, TextKey::ReadOnlyWarning),
            version: text(language, TextKey::Version),
            about_description: text(language, TextKey::AboutDescription),
            copyright: text(language, TextKey::Copyright),
            close: text(language, TextKey::Close),
            prerequisite_title: text(language, TextKey::PrerequisiteTitle),
            prerequisite_subtitle: text(language, TextKey::PrerequisiteSubtitle),
            to_continue: text(language, TextKey::ToContinue),
            prerequisite_step_one: text(language, TextKey::PrerequisiteStepOne),
            prerequisite_step_two: text(language, TextKey::PrerequisiteStepTwo),
            prerequisite_step_three: text(language, TextKey::PrerequisiteStepThree),
            prerequisite_notice: text(language, TextKey::PrerequisiteNotice),
            download_winfsp: text(language, TextKey::DownloadWinFsp),
            recheck: text(language, TextKey::Recheck),
            automatic_language: text(language, TextKey::AutomaticLanguage),
        }
    }

    /// The language selector's entries: automatic first, then every language by
    /// its own name.
    pub fn language_options(self) -> (r: Vec<String>)
        ensures
            r@.len() == 13,
            r@[0]@ == self.automatic_language@,
            forall|i: int| 0 <= i < 12 ==> #[trigger] r@[i + 1]@ == all_languages()[i].self_name_text(),
    {
        language_entries(String::from_str(self.automatic_language))
    }

    /// The status shown when nothing is under way.
    pub fn ready(self) -> (r: String)
        ensures
            r@ == status_text(self.language, DynamicKey::Ready, Seq::empty()),
    {
        dynamic(self.language, DynamicKey::Ready, "")
    }

    /// The status after a failed refresh, with its error.
    pub fn refresh_failed(self, error: &str) -> (r: String)
        ensures
            r@ == status_text(self.language, DynamicKey::RefreshFailed, error@),
    {
        dynamic(self.language, DynamicKey::RefreshFailed, error)
    }

    /// The status while a mount is under way.
    pub fn mounting(self) -> (r: String)
        ensures
            r@ == status_text(self.language, DynamicKey::Mounting, Seq::empty()),
    {
        dynamic(self.language, DynamicKey::Mounting, "")
    }

    /// The status after a mount, with its mount point.
    pub fn mounted(self, point: &str) -> (r: String)
        ensures
            r@ == status_text(self.language, DynamicKey::Mounted, point@),
    {
        dynamic(self.language, DynamicKey::Mounted, point)
    }

    /// The status while an unmount is under way.
    pub fn unmounting(self) -> (r: String)
        ensures
            r@ == status_text(self.language, DynamicKey::Unmounting, Seq::empty()),
    {
        dynamic(self.language, DynamicKey::Unmounting, "")
    }

    /// The status after an unmount.
    pub fn unmounted(self) -> (r: String)
        ensures
            r@ == status_text(self.language, DynamicKey::Unmounted, Seq::empty()),
    {
        dynamic(self.language, DynamicKey::Unmounted, "")
    }

    /// The status after a failed mount, with its error.
    pub fn mount_failed(self, error: &str) -> (r: String)
        ensures
            r@ == status_text(self.language, DynamicKey::MountFailed, error@),
    {
        dynamic(self.language, DynamicKey::MountFailed, error)
    }

    /// The status after a failed unmount, with its error.
    pub fn unmount_failed(self, error: &str) -> (r: String)
        ensures
            r@ == status_text(self.language, DynamicKey::UnmountFailed, error@),
    {
        dynamic(self.language, DynamicKey::UnmountFailed, error)
    }

    /// The status after Explorer opened a mount point.
    pub fn explorer_opened(self, point: &str) -> (r: String)
        ensures
            r@ == status_text(self.language, DynamicKey::ExplorerOpened, point@),
    {
        dynamic(self.language, DynamicKey::ExplorerOpened, point)
    }

    /// The status when a new mount failed but the earlier one remains.
    pub fn existing_mount_available(self, error: &str) -> (r: String)
        ensures
            r@ == status_text(self.language, DynamicKey::ExistingMountAvailable, error@),
    {
        dynamic(self.language, DynamicKey::ExistingMountAvailable, error)
    }

    /// The message shown when the language preference could not be saved.
    pub fn language_save_failed(self, error: &str) -> (r: String)
        ensures
            r@ == self.language.save_failed_text() + ": "@ + error@,
    {
        let message = match self.language {
            UiLanguage::English => "Could not save language preference",
            UiLanguage::French => "Impossible d’enregistrer la préférence de langue",
            UiLanguage::German => "Spracheinstellung konnte nicht gespeichert werden",
            UiLanguage::Spanish => "No se pudo guardar la preferencia de idioma",
            UiLanguage::PortugueseBrazil => "Não foi possível salvar a preferência de idioma",
            UiLanguage::Italian => "Impossibile salvare la preferenza della lingua",
            UiLanguage::Polish => "Nie można zapisać preferencji języka",
            UiLanguage::Russian => "Не удалось сохранить настройку языка",
            UiLanguage::ChineseSimplified => "无法保存语言首选项",
            UiLanguage::ChineseTraditional => "無法儲存語言偏好設定",
            UiLanguage::Japanese => "言語設定を保存できませんでした",
            UiLanguage::Korean => "언어 기본 설정을 저장할 수 없습니다",
        };
        let mut r = String::from_str(message);
        r.append(": ");
        r.append(error);
        r
    }

    /// The heading shown while no source is loaded.
    pub fn no_source_loaded(self) -> (r: &'static str)
        ensures
            r@ == self.language.no_source_text(),
    {
        match self.language {
            UiLanguage::English => "No source loaded",
            UiLanguage::French => "Aucune source chargée",
            UiLanguage::German => "Keine Quelle geladen",
            UiLanguage::Spanish => "No hay fuente cargada",
            UiLanguage::PortugueseBrazil => "Nenhuma fonte carregada",
            UiLanguage::Italian => "Nessuna origine caricata",
            UiLanguage::Polish => "Nie załadowano źródła",
            UiLanguage::Russian => "Источник не загружен",
            UiLanguage::ChineseSimplified => "未加载源",
            UiLanguage::ChineseTraditional => "未載入來源",
            UiLanguage::Japanese => "ソースが読み込まれていません",
            UiLanguage::Korean => "원본이 로드되지 않았습니다",
        }
    }

    /// The hint that suggests opening a raw image.
    pub fn open_raw_image_hint(self) -> (r: &'static str)
        ensures
            r@ == self.language.raw_image_hint_text(),
    {
        match self.language {
            UiLanguage::English => "Open a raw Linux filesystem image to inspect it.",
            UiLanguage::French => "Ouvrez une image brute de système de fichiers Linux pour l’inspecter.",
            UiLanguage::German => "Öffnen Sie ein rohes Linux-Dateisystem-Image zur Untersuchung.",
            UiLanguage::Spanish => "Abra una imagen sin procesar de un sistema de archivos Linux para inspeccionarla.",
            UiLanguage::PortugueseBrazil => "Abra uma imagem bruta de sistema de arquivos Linux para examiná-la.",
            UiLanguage::Italian => "Apri un’immagine raw di filesystem Linux per esaminarla.",
            UiLanguage::Polish => "Otwórz surowy obraz systemu plików Linux, aby go sprawdzić.",
            UiLanguage::Russian => "Откройте необработанный образ файловой системы Linux для просмотра.",
            UiLanguage::ChineseSimplified => "打开原始 Linux 文件系统映像以进行查看。",
            UiLanguage::ChineseTraditional => "開啟原始 Linux 檔案系統映像檔以進行檢視。",
            UiLanguage::Japanese => "raw Linux ファイルシステムイメージを開いて確認します。",
            UiLanguage::Korean => "원시 Linux 파일 시스템 이미지를 열어 검사하세요.",
        }
    }

    /// The heading shown when a scan finds no compatible source.
    pub fn no_compatible_source(self) -> (r: &'static str)
        ensures
            r@ == self.language.no_compatible_text(),
    {
        match self.language {
            UiLanguage::English => "No compatible source",
            UiLanguage::French => "Aucune source compatible",
            UiLanguage::German => "Keine kompatible Quelle",
            UiLanguage::Spanish => "No hay fuente compatible",
            UiLanguage::PortugueseBrazil => "Nenhuma fonte compatível",
            UiLanguage::Italian => "Nessuna origine compatibile",
            UiLanguage::Polish => "Brak zgodnego źródła",
            UiLanguage::Russian => "Нет совместимого источника",
            UiLanguage::ChineseSimplified => "没有兼容的源",
            UiLanguage::ChineseTraditional => "沒有相容的來源",
            UiLanguage::Japanese => "互換性のあるソースがありません",
            UiLanguage::Korean => "호환되는 원본이 없습니다",
        }
    }

    /// The explanation shown when a physical scan finds nothing.
    pub fn physical_scan_empty_details(self) -> (r: &'static str)
        ensures
            r@ == self.language.scan_empty_text(),
    {
        match self.language {
            UiLanguage::English => "No supported Linux filesystem was found, or Windows denied raw-disk access. Run elevated to scan physical disks.",
            UiLanguage::French => "Aucun système de fichiers Linux pris en charge n’a été trouvé, ou Windows a refusé l’accès brut au disque. Exécutez en tant qu’administrateur pour analyser les disques physiques.",
            UiLanguage::German => "Kein unterstütztes Linux-Dateisystem gefunden, oder Windows verweigerte den Rohdatenträgerzugriff. Führen Sie die App erhöht aus, um physische Datenträger zu scannen.",
            UiLanguage::Spanish => "No se encontró un sistema de archivos Linux compatible o Windows denegó el acceso sin procesar al disco. Ejecute como administrador para analizar discos físicos.",
            UiLanguage::PortugueseBrazil => "Nenhum sistema de arquivos Linux compatível foi encontrado ou o Windows negou o acesso bruto ao disco. Execute como administrador para verificar discos físicos.",
            UiLanguage::Italian => "Non è stato trovato alcun filesystem Linux supportato oppure Windows ha negato l’accesso raw al disco. Esegui come amministratore per analizzare i dischi fisici.",
            UiLanguage::Polish => "Nie znaleziono obsługiwanego systemu plików Linux albo Windows odmówił surowego dostępu do dysku. Uruchom jako administrator, aby skanować dyski fizyczne.",
            UiLanguage::Russian => "Поддерживаемая файловая система Linux не найдена либо Windows запретила прямой доступ к диску. Запустите от имени администратора для сканирования физических дисков.",
            UiLanguage::ChineseSimplified => "未找到受支持的 Linux 文件系统，或者 Windows 拒绝了原始磁盘访问。请以管理员身份运行以扫描物理磁盘。",
            UiLanguage::ChineseTraditional => "找不到支援的 Linux 檔案系統，或 Windows 拒絕原始磁碟存取。請以系統管理員身分執行以掃描實體磁碟。",
            UiLanguage::Japanese => "対応する Linux ファイルシステムが見つからないか、Windows が raw ディスクアクセスを拒否しました。物理ディスクをスキャンするには管理者として実行してください。",
            UiLanguage::Korean => "지원되는 Linux 파일 시스템을 찾을 수 없거나 Windows가 원시 디스크 액세스를 거부했습니다. 물리 디스크를 검색하려면 관리자 권한으로 실행하세요.",
        }
    }

    /// The explanation shown when an image cannot be opened.
    pub fn image_open_failed_details(self) -> (r: &'static str)
        ensures
            r@ == self.language.image_open_failed_text(),
    {
        match self.language {
            UiLanguage::English => "The image could not be opened safely.",
            UiLanguage::French => "L’image n’a pas pu être ouverte en toute sécurité.",
            UiLanguage::German => "Das Image konnte nicht sicher geöffnet werden.",
            UiLanguage::Spanish => "La imagen no se pudo abrir de forma segura.",
            UiLanguage::PortugueseBrazil => "Não foi possível abrir a imagem com segurança.",
            UiLanguage::Italian => "Non è stato possibile aprire l’immagine in modo sicuro.",
            UiLanguage::Polish => "Nie można było bezpiecznie otworzyć obrazu.",
            UiLanguage::Russian => "Не удалось безопасно открыть образ.",
            UiLanguage::ChineseSimplified => "无法安全地打开映像。",
            UiLanguage::ChineseTraditional => "無法安全地開啟映像檔。",
            UiLanguage::Japanese => "イメージを安全に開けませんでした。",
            UiLanguage::Korean => "이미지를 안전하게 열 수 없습니다.",
        }
    }

    /// Whether every fixed text of the language holds more than white space.
    pub fn is_complete(self) -> (r: bool)
        ensures
            r == forall|key: TextKey| !is_blank(#[trigger] ui_text(self.language, key)),
    {
        if blank(text(self.language, TextKey::AppTitle)) {
            return false;
        }
        if blank(text(self.language, TextKey::AppSubtitle)) {
            return false;
        }
        if blank(text(self.language, TextKey::ScanDrives)) {
            return false;
        }
        if blank(text(self.language, TextKey::OpenImage)) {
            return false;
        }
        if blank(text(self.language, TextKey::About)) {
            return false;
        }
        if blank(text(self.language, TextKey::Sources)) {
            return false;
        }
        if blank(text(self.language, TextKey::SourcesSubtitle)) {
            return false;
        }
        if blank(text(self.language, TextKey::SourcesEmpty)) {
            return false;
        }
        if blank(text(self.language, TextKey::FilesystemDetails)) {
            return false;
        }
        if blank(text(self.language, TextKey::OpenFilesystemImage)) {
            return false;
        }
        if blank(text(self.language, TextKey::ImagePlaceholder)) {
            return false;
        }
        if blank(text(self.language, TextKey::Mount)) {
            return false;
        }
        if blank(text(self.language, TextKey::Unmount)) {
            return false;
        }
        if blank(text(self.language, TextKey::OpenInExplorer)) {
            return false;
        }
        if blank(text(self.language, TextKey::Details)) {
            return false;
        }
        if blank(text(self.language, TextKey::ReadOnlyWarning)) {
            return false;
        }
        if blank(text(self.language, TextKey::Version)) {
            return false;
        }
        if blank(text(self.language, TextKey::AboutDescription)) {
            return false;
        }
        if blank(text(self.language, TextKey::Copyright)) {
            return false;
        }
        if blank(text(self.language, TextKey::Close)) {
            return false;
        }
        if blank(text(self.language, TextKey::PrerequisiteTitle)) {
            return false;
        }
        if blank(text(self.language, TextKey::PrerequisiteSubtitle)) {
            return false;
        }
        if blank(text(self.language, TextKey::ToContinue)) {
            return false;
        }
        if blank(text(self.language, TextKey::PrerequisiteStepOne)) {
            return false;
        }
        if blank(text(self.language, TextKey::PrerequisiteStepTwo)) {
            return false;
        }
        if blank(text(self.language, TextKey::PrerequisiteStepThree)) {
            return false;
        }
        if blank(text(self.language, TextKey::PrerequisiteNotice)) {
            return false;
        }
        if blank(text(self.language, TextKey::DownloadWinFsp)) {
            return false;
        }
        if blank(text(self.language, TextKey::Recheck)) {
            return false;
        }
        if blank(text(self.language, TextKey::AutomaticLanguage)) {
            return false;
        }
        assert forall|key: TextKey| !is_blank(#[trigger] ui_text(self.language, key)) by {
            match key {
                TextKey::AppTitle => {},
                TextKey::AppSubtitle => {},
                TextKey::ScanDrives => {},
                TextKey::OpenImage => {},
                TextKey::About => {},
                TextKey::Sources => {},
                TextKey::SourcesSubtitle => {},
                TextKey::SourcesEmpty => {},
                TextKey::FilesystemDetails => {},
                TextKey::OpenFilesystemImage => {},
                TextKey::ImagePlaceholder => {},
                TextKey::Mount => {},
                TextKey::Unmount => {},
                TextKey::OpenInExplorer => {},
                TextKey::Details => {},
                TextKey::ReadOnlyWarning => {},
                TextKey::Version => {},
                TextKey::AboutDescription => {},
                TextKey::Copyright => {},
                TextKey::Close => {},
                TextKey::PrerequisiteTitle => {},
                TextKey::PrerequisiteSubtitle => {},
                TextKey::ToContinue => {},
                TextKey::PrerequisiteStepOne => {},
                TextKey::PrerequisiteStepTwo => {},
                TextKey::PrerequisiteStepThree => {},
                TextKey::PrerequisiteNotice => {},
                TextKey::DownloadWinFsp => {},
                TextKey::Recheck => {},
                TextKey::AutomaticLanguage => {},
            }
        }
        true
    }
}

/// `first`, then the own name of every language in selector order.
fn language_entries(first: String) -> (r: Vec<String>)
    ensures
        r@.len() == 13,
        r@[0]@ == first@,
        forall|i: int| 0 <= i < 12 ==> #[trigger] r@[i + 1]@ == all_languages()[i].self_name_text(),
{
    let mut r: Vec<String> = Vec::new();
    r.push(first);
    r.push(String::from_str(UiLanguage::English.self_name()));
    r.push(String::from_str(UiLanguage::French.self_name()));
    r.push(String::from_str(UiLanguage::German.self_name()));
    r.push(String::from_str(UiLanguage::Spanish.self_name()));
    r.push(String::from_str(UiLanguage::PortugueseBrazil.self_name()));
    r.push(String::from_str(UiLanguage::Italian.self_name()));
    r.push(String::from_str(UiLanguage::Polish.self_name()));
    r.push(String::from_str(UiLanguage::Russian.self_name()));
    r.push(String::from_str(UiLanguage::ChineseSimplified.self_name()));
    r.push(String::from_str(UiLanguage::ChineseTraditional.self_name()));
    r.push(String::from_str(UiLanguage::Japanese.self_name()));
    r.push(String::from_str(UiLanguage::Korean.self_name()));
    r
}

/// The bundled interface text of `language`.
pub fn catalog(language: UiLanguage) -> (r: UiCopy)
    ensures
        r.is_catalog_of(language),
{
    UiCopy::new(language)
}

/// The value that the last entry with key `key` gives, if any entry has it.
pub open spec fn last_value(entries: Seq<(Seq<char>, Seq<char>)>, key: Seq<char>) -> Option<Seq<char>>
    decreases entries.len(),
{
    if entries.len() == 0 {
        None
    } else if entries.last().0 == key {
        Some(entries.last().1)
    } else {
        last_value(entries.drop_last(), key)
    }
}

/// The key and value of every entry, as text.
pub open spec fn entry_views(entries: Seq<(String, String)>) -> Seq<(Seq<char>, Seq<char>)> {
    entries.map_values(|e: (String, String)| (e.0@, e.1@))
}

/// The interface text of a language with the overrides of its locale file.
#[derive(Clone, Debug)]
pub struct LocalizedCatalog {
    pub copy: UiCopy,
    overrides: Vec<(String, String)>,
}

impl LocalizedCatalog {
    /// The bundled text of the catalog's language.
    pub closed spec fn bundled(&self) -> UiCopy {
        self.copy
    }

    /// The overriding texts, by key; a later entry replaces an earlier one.
    pub closed spec fn overrides(&self) -> Seq<(Seq<char>, Seq<char>)> {
        entry_views(self.overrides@)
    }

    /// The text that key `key` shows with `fallback` as its bundled text.
    pub open spec fn text_for(&self, key: Seq<char>, fallback: Seq<char>) -> Seq<char> {
        match last_value(self.overrides(), key) {
            Some(value) => if is_blank(value) {
                fallback
            } else {
                value
            },
            None => fallback,
        }
    }

    /// The catalog of `language` with the texts that the parsed locale `document`
    /// overrides for it; `None` stands for a file that is missing or no TOML document.
    pub fn from_locale_document(
        language: UiLanguage,
        document: &Option<Vec<(String, TomlEntry)>>,
    ) -> (r: Self)
        ensures
            r.bundled().is_catalog_of(language),
            r.overrides() == locale_strings(language, parsed_view(*document)),
    {
        LocalizedCatalog { copy: catalog(language), overrides: locale_document_strings(language, document) }
    }

    /// The catalog of `language` with the texts that the locale file `text`
    /// overrides for it.
    pub fn from_locale_text(language: UiLanguage, text: &str) -> (r: Self)
        ensures
            r.bundled().is_catalog_of(language),
            r.overrides() == locale_strings(language, toml_document(text@)),
    {
        LocalizedCatalog { copy: catalog(language), overrides: locale_text_strings(language, text) }
    }

    /// The overriding text of `key` where one is set and not blank, else `fallback`.
    pub fn text(&self, key: &str, fallback: &str) -> (r: String)
        ensures
            r@ == self.text_for(key@, fallback@),
    {
        let mut i: usize = self.overrides.len();
        assert(self.overrides@.subrange(0, i as int) =~= self.overrides@);
        while i > 0
            invariant
                i <= self.overrides@.len(),
                last_value(self.overrides(), key@) == last_value(
                    entry_views(self.overrides@.subrange(0, i as int)),
                    key@,
                ),
            decreases i,
        {
            let ghost prefix = entry_views(self.overrides@.subrange(0, i as int));
            assert(prefix.drop_last() =~= entry_views(self.overrides@.subrange(0, i - 1)));
            let entry = &self.overrides[i - 1];
            if str_eq(entry.0.as_str(), key) {
                if blank(entry.1.as_str()) {
                    return String::from_str(fallback);
                }
                return entry.1.clone();
            }
            i = i - 1;
        }
        String::from_str(fallback)
    }

    /// The language selector's entries: automatic, as the locale file may override
    /// it, then every language by its own name.
    pub fn language_options(&self) -> (r: Vec<String>)
        ensures
            r@.len() == 13,
            r@[0]@ == self.text_for("automatic_language"@, self.bundled().automatic_language@),
            forall|i: int| 0 <= i < 12 ==> #[trigger] r@[i + 1]@ == all_languages()[i].self_name_text(),
    {
        language_entries(self.text("automatic_language", self.copy.automatic_language))
    }
}
/// Each selector position belongs to at most one language.
pub proof fn lemma_selector_positions_are_distinct(a: UiLanguage, b: UiLanguage)
    requires
        a.selector_value() == b.selector_value(),
    ensures
        a == b,
{
}

proof fn lemma_english_tag_is_supported()
    ensures
        supported_language(UiLanguage::English.tag_text()) == Some(UiLanguage::English),
{
    reveal_strlit("auto");
    reveal_strlit("en");
    reveal_strlit("en-gb");
    reveal_strlit("en-us");
    reveal_with_fuel(fold_all, 3);
    let s = "en"@;
    assert(trim_start(s) == s);
    assert(trim_end(s) == s);
    assert(fold_all(s) =~= "en"@);
    assert(exact_language("en"@) == Some(UiLanguage::English));
}

proof fn lemma_french_tag_is_supported()
    ensures
        supported_language(UiLanguage::French.tag_text()) == Some(UiLanguage::French),
{
    reveal_strlit("auto");
    reveal_strlit("en");
    reveal_strlit("en-gb");
    reveal_strlit("en-us");
    reveal_strlit("fr");
    reveal_strlit("fr-FR");
    reveal_strlit("fr-fr");
    reveal_with_fuel(fold_all, 6);
    let s = "fr-FR"@;
    assert(trim_start(s) == s);
    assert(trim_end(s) == s);
    assert(fold_all(s) =~= "fr-fr"@);
    assert("fr-fr"@[0] != "en-us"@[0]);
    assert("fr-fr"@[0] != "en-gb"@[0]);
    assert(exact_language("fr-fr"@) == Some(UiLanguage::French));
}

proof fn lemma_german_tag_is_supported()
    ensures
        supported_language(UiLanguage::German.tag_text()) == Some(UiLanguage::German),
{
    reveal_strlit("auto");
    reveal_strlit("de");
    reveal_strlit("de-DE");
    reveal_strlit("de-de");
    reveal_strlit("en");
    reveal_strlit("en-gb");
    reveal_strlit("en-us");
    reveal_strlit("fr");
    reveal_strlit("fr-fr");
    reveal_with_fuel(fold_all, 6);
    let s = "de-DE"@;
    assert(trim_start(s) == s);
    assert(trim_end(s) == s);
    assert(fold_all(s) =~= "de-de"@);
    assert("de-de"@[0] != "en-us"@[0]);
    assert("de-de"@[0] != "en-gb"@[0]);
    assert("de-de"@[0] != "fr-fr"@[0]);
    assert(exact_language("de-de"@) == Some(UiLanguage::German));
}

proof fn lemma_spanish_tag_is_supported()
    ensures
        supported_language(UiLanguage::Spanish.tag_text()) == Some(UiLanguage::Spanish),
{
    reveal_strlit("auto");
    reveal_strlit("de");
    reveal_strlit("de-de");
    reveal_strlit("en");
    reveal_strlit("en-gb");
    reveal_strlit("en-us");
    reveal_strlit("es");
    reveal_strlit("es-ES");
    reveal_strlit("es-es");
    reveal_strlit("fr");
    reveal_strlit("fr-fr");
    reveal_with_fuel(fold_all, 6);
    let s = "es-ES"@;
    assert(trim_start(s) == s);
    assert(trim_end(s) == s);
    assert(fold_all(s) =~= "es-es"@);
    assert("es-es"@[1] != "en-us"@[1]);
    assert("es-es"@[1] != "en-gb"@[1]);
    assert("es-es"@[0] != "fr-fr"@[0]);
    assert("es-es"@[0] != "de-de"@[0]);
    assert(exact_language("es-es"@) == Some(UiLanguage::Spanish));
}

proof fn lemma_portuguese_brazil_tag_is_supported()
    ensures
        supported_language(UiLanguage::PortugueseBrazil.tag_text()) == Some(UiLanguage::PortugueseBrazil),
{
    reveal_strlit("auto");
    reveal_strlit("de");
    reveal_strlit("de-de");
    reveal_strlit("en");
    reveal_strlit("en-gb");
    reveal_strlit("en-us");
    reveal_strlit("es");
    reveal_strlit("es-es");
    reveal_strlit("fr");
    reveal_strlit("fr-fr");
    reveal_strlit("pt");
    reveal_strlit("pt-BR");
    reveal_strlit("pt-br");
    reveal_with_fuel(fold_all, 6);
    let s = "pt-BR"@;
    assert(trim_start(s) == s);
    assert(trim_end(s) == s);
    assert(fold_all(s) =~= "pt-br"@);
    assert("pt-br"@[0] != "en-us"@[0]);
    assert("pt-br"@[0] != "en-gb"@[0]);
    assert("pt-br"@[0] != "fr-fr"@[0]);
    assert("pt-br"@[0] != "de-de"@[0]);
    assert("pt-br"@[0] != "es-es"@[0]);
    assert(exact_language("pt-br"@) == Some(UiLanguage::PortugueseBrazil));
}

proof fn lemma_italian_tag_is_supported()
    ensures
        supported_language(UiLanguage::Italian.tag_text()) == Some(UiLanguage::Italian),
{
    reveal_strlit("auto");
    reveal_strlit("de");
    reveal_strlit("de-de");
    reveal_strlit("en");
    reveal_strlit("en-gb");
    reveal_strlit("en-us");
    reveal_strlit("es");
    reveal_strlit("es-es");
    reveal_strlit("fr");
    reveal_strlit("fr-fr");
    reveal_strlit("it");
    reveal_strlit("it-IT");
    reveal_strlit("it-it");
    reveal_strlit("pt");
    reveal_strlit("pt-br");
    reveal_with_fuel(fold_all, 6);
    let s = "it-IT"@;
    assert(trim_start(s) == s);
    assert(trim_end(s) == s);
    assert(fold_all(s) =~= "it-it"@);
    assert("it-it"@[0] != "en-us"@[0]);
    assert("it-it"@[0] != "en-gb"@[0]);
    assert("it-it"@[0] != "fr-fr"@[0]);
    assert("it-it"@[0] != "de-de"@[0]);
    assert("it-it"@[0] != "es-es"@[0]);
    assert("it-it"@[0] != "pt-br"@[0]);
    assert(exact_language("it-it"@) == Some(UiLanguage::Italian));
}

proof fn lemma_polish_tag_is_supported()
    ensures
        supported_language(UiLanguage::Polish.tag_text()) == Some(UiLanguage::Polish),
{
    reveal_strlit("auto");
    reveal_strlit("de");
    reveal_strlit("de-de");
    reveal_strlit("en");
    reveal_strlit("en-gb");
    reveal_strlit("en-us");
    reveal_strlit("es");
    reveal_strlit("es-es");
    reveal_strlit("fr");
    reveal_strlit("fr-fr");
    reveal_strlit("it");
    reveal_strlit("it-it");
    reveal_strlit("pl");
    reveal_strlit("pl-PL");
    reveal_strlit("pl-pl");
    reveal_strlit("pt");
    reveal_strlit("pt-br");
    reveal_with_fuel(fold_all, 6);
    let s = "pl-PL"@;
    assert(trim_start(s) == s);
    assert(trim_end(s) == s);
    assert(fold_all(s) =~= "pl-pl"@);
    assert("pl-pl"@[0] != "en-us"@[0]);
    assert("pl-pl"@[0] != "en-gb"@[0]);
    assert("pl-pl"@[0] != "fr-fr"@[0]);
    assert("pl-pl"@[0] != "de-de"@[0]);
    assert("pl-pl"@[0] != "es-es"@[0]);
    assert("pl-pl"@[1] != "pt-br"@[1]);
    assert("pl-pl"@[0] != "it-it"@[0]);
    assert(exact_language("pl-pl"@) == Some(UiLanguage::Polish));
}

proof fn lemma_russian_tag_is_supported()
    ensures
        supported_language(UiLanguage::Russian.tag_text()) == Some(UiLanguage::Russian),
{
    reveal_strlit("auto");
    reveal_strlit("de");
    reveal_strlit("de-de");
    reveal_strlit("en");
    reveal_strlit("en-gb");
    reveal_strlit("en-us");
    reveal_strlit("es");
    reveal_strlit("es-es");
    reveal_strlit("fr");
    reveal_strlit("fr-fr");
    reveal_strlit("it");
    reveal_strlit("it-it");
    reveal_strlit("pl");
    reveal_strlit("pl-pl");
    reveal_strlit("pt");
    reveal_strlit("pt-br");
    reveal_strlit("ru");
    reveal_strlit("ru-RU");
    reveal_strlit("ru-ru");
    reveal_with_fuel(fold_all, 6);
    let s = "ru-RU"@;
    assert(trim_start(s) == s);
    assert(trim_end(s) == s);
    assert(fold_all(s) =~= "ru-ru"@);
    assert("ru-ru"@[0] != "en-us"@[0]);
    assert("ru-ru"@[0] != "en-gb"@[0]);
    assert("ru-ru"@[0] != "fr-fr"@[0]);
    assert("ru-ru"@[0] != "de-de"@[0]);
    assert("ru-ru"@[0] != "es-es"@[0]);
    assert("ru-ru"@[0] != "pt-br"@[0]);
    assert("ru-ru"@[0] != "it-it"@[0]);
    assert("ru-ru"@[0] != "pl-pl"@[0]);
    assert(exact_language("ru-ru"@) == Some(UiLanguage::Russian));
}

proof fn lemma_chinese_simplified_tag_is_supported()
    ensures
        supported_language(UiLanguage::ChineseSimplified.tag_text()) == Some(UiLanguage::ChineseSimplified),
{
    reveal_strlit("auto");
    reveal_strlit("de");
    reveal_strlit("de-de");
    reveal_strlit("en");
    reveal_strlit("en-gb");
    reveal_strlit("en-us");
    reveal_strlit("es");
    reveal_strlit("es-es");
    reveal_strlit("fr");
    reveal_strlit("fr-fr");
    reveal_strlit("it");
    reveal_strlit("it-it");
    reveal_strlit("pl");
    reveal_strlit("pl-pl");
    reveal_strlit("pt");
    reveal_strlit("pt-br");
    reveal_strlit("ru");
    reveal_strlit("ru-ru");
    reveal_strlit("zh-CN");
    reveal_strlit("zh-cn");
    reveal_strlit("zh-hans");
    reveal_strlit("zh-hans-cn");
    reveal_with_fuel(fold_all, 6);
    let s = "zh-CN"@;
    assert(trim_start(s) == s);
    assert(trim_end(s) == s);
    assert(fold_all(s) =~= "zh-cn"@);
    assert("zh-cn"@[0] != "en-us"@[0]);
    assert("zh-cn"@[0] != "en-gb"@[0]);
    assert("zh-cn"@[0] != "fr-fr"@[0]);
    assert("zh-cn"@[0] != "de-de"@[0]);
    assert("zh-cn"@[0] != "es-es"@[0]);
    assert("zh-cn"@[0] != "pt-br"@[0]);
    assert("zh-cn"@[0] != "it-it"@[0]);
    assert("zh-cn"@[0] != "pl-pl"@[0]);
    assert("zh-cn"@[0] != "ru-ru"@[0]);
    assert(exact_language("zh-cn"@) == Some(UiLanguage::ChineseSimplified));
}

proof fn lemma_chinese_traditional_tag_is_supported()
    ensures
        supported_language(UiLanguage::ChineseTraditional.tag_text()) == Some(UiLanguage::ChineseTraditional),
{
    reveal_strlit("auto");
    reveal_strlit("de");
    reveal_strlit("de-de");
    reveal_strlit("en");
    reveal_strlit("en-gb");
    reveal_strlit("en-us");
    reveal_strlit("es");
    reveal_strlit("es-es");
    reveal_strlit("fr");
    reveal_strlit("fr-fr");
    reveal_strlit("it");
    reveal_strlit("it-it");
    reveal_strlit("pl");
    reveal_strlit("pl-pl");
    reveal_strlit("pt");
    reveal_strlit("pt-br");
    reveal_strlit("ru");
    reveal_strlit("ru-ru");
    reveal_strlit("zh-TW");
    reveal_strlit("zh-cn");
    reveal_strlit("zh-hans");
    reveal_strlit("zh-hans-cn");
    reveal_strlit("zh-hant");
    reveal_strlit("zh-hant-tw");
    reveal_strlit("zh-tw");
    reveal_with_fuel(fold_all, 6);
    let s = "zh-TW"@;
    assert(trim_start(s) == s);
    assert(trim_end(s) == s);
    assert(fold_all(s) =~= "zh-tw"@);
    assert("zh-tw"@[0] != "en-us"@[0]);
    assert("zh-tw"@[0] != "en-gb"@[0]);
    assert("zh-tw"@[0] != "fr-fr"@[0]);
    assert("zh-tw"@[0] != "de-de"@[0]);
    assert("zh-tw"@[0] != "es-es"@[0]);
    assert("zh-tw"@[0] != "pt-br"@[0]);
    assert("zh-tw"@[0] != "it-it"@[0]);
    assert("zh-tw"@[0] != "pl-pl"@[0]);
    assert("zh-tw"@[0] != "ru-ru"@[0]);
    assert("zh-tw"@[3] != "zh-cn"@[3]);
    assert(exact_language("zh-tw"@) == Some(UiLanguage::ChineseTraditional));
}

proof fn lemma_japanese_tag_is_supported()
    ensures
        supported_language(UiLanguage::Japanese.tag_text()) == Some(UiLanguage::Japanese),
{
    reveal_strlit("auto");
    reveal_strlit("de");
    reveal_strlit("de-de");
    reveal_strlit("en");
    reveal_strlit("en-gb");
    reveal_strlit("en-us");
    reveal_strlit("es");
    reveal_strlit("es-es");
    reveal_strlit("fr");
    reveal_strlit("fr-fr");
    reveal_strlit("it");
    reveal_strlit("it-it");
    reveal_strlit("ja");
    reveal_strlit("ja-JP");
    reveal_strlit("ja-jp");
    reveal_strlit("pl");
    reveal_strlit("pl-pl");
    reveal_strlit("pt");
    reveal_strlit("pt-br");
    reveal_strlit("ru");
    reveal_strlit("ru-ru");
    reveal_strlit("zh-cn");
    reveal_strlit("zh-hans");
    reveal_strlit("zh-hans-cn");
    reveal_strlit("zh-hant");
    reveal_strlit("zh-hant-tw");
    reveal_strlit("zh-tw");
    reveal_with_fuel(fold_all, 6);
    let s = "ja-JP"@;
    assert(trim_start(s) == s);
    assert(trim_end(s) == s);
    assert(fold_all(s) =~= "ja-jp"@);
    assert("ja-jp"@[0] != "en-us"@[0]);
    assert("ja-jp"@[0] != "en-gb"@[0]);
    assert("ja-jp"@[0] != "fr-fr"@[0]);
    assert("ja-jp"@[0] != "de-de"@[0]);
    assert("ja-jp"@[0] != "es-es"@[0]);
    assert("ja-jp"@[0] != "pt-br"@[0]);
    assert("ja-jp"@[0] != "it-it"@[0]);
    assert("ja-jp"@[0] != "pl-pl"@[0]);
    assert("ja-jp"@[0] != "ru-ru"@[0]);
    assert("ja-jp"@[0] != "zh-cn"@[0]);
    assert("ja-jp"@[0] != "zh-tw"@[0]);
    assert(exact_language("ja-jp"@) == Some(UiLanguage::Japanese));
}

proof fn lemma_korean_tag_is_supported()
    ensures
        supported_language(UiLanguage::Korean.tag_text()) == Some(UiLanguage::Korean),
{
    reveal_strlit("auto");
    reveal_strlit("de");
    reveal_strlit("de-de");
    reveal_strlit("en");
    reveal_strlit("en-gb");
    reveal_strlit("en-us");
    reveal_strlit("es");
    reveal_strlit("es-es");
    reveal_strlit("fr");
    reveal_strlit("fr-fr");
    reveal_strlit("it");
    reveal_strlit("it-it");
    reveal_strlit("ja");
    reveal_strlit("ja-jp");
    reveal_strlit("ko");
    reveal_strlit("ko-KR");
    reveal_strlit("ko-kr");
    reveal_strlit("pl");
    reveal_strlit("pl-pl");
    reveal_strlit("pt");
    reveal_strlit("pt-br");
    reveal_strlit("ru");
    reveal_strlit("ru-ru");
    reveal_strlit("zh-cn");
    reveal_strlit("zh-hans");
    reveal_strlit("zh-hans-cn");
    reveal_strlit("zh-hant");
    reveal_strlit("zh-hant-tw");
    reveal_strlit("zh-tw");
    reveal_with_fuel(fold_all, 6);
    let s = "ko-KR"@;
    assert(trim_start(s) == s);
    assert(trim_end(s) == s);
    assert(fold_all(s) =~= "ko-kr"@);
    assert("ko-kr"@[0] != "en-us"@[0]);
    assert("ko-kr"@[0] != "en-gb"@[0]);
    assert("ko-kr"@[0] != "fr-fr"@[0]);
    assert("ko-kr"@[0] != "de-de"@[0]);
    assert("ko-kr"@[0] != "es-es"@[0]);
    assert("ko-kr"@[0] != "pt-br"@[0]);
    assert("ko-kr"@[0] != "it-it"@[0]);
    assert("ko-kr"@[0] != "pl-pl"@[0]);
    assert("ko-kr"@[0] != "ru-ru"@[0]);
    assert("ko-kr"@[0] != "zh-cn"@[0]);
    assert("ko-kr"@[0] != "zh-tw"@[0]);
    assert("ko-kr"@[0] != "ja-jp"@[0]);
    assert(exact_language("ko-kr"@) == Some(UiLanguage::Korean));
}

/// Trailing white space after a part that does not end in white space belongs
/// to what follows that part.
proof fn lemma_trim_end_after(p: Seq<char>, q: Seq<char>)
    requires
        p.len() > 0,
        !is_white_space(p.last()),
    ensures
        trim_end(p + q) == p + trim_end(q),
    decreases q.len(),
{
    if q.len() == 0 {
        assert(p + q =~= p);
        assert(p + trim_end(q) =~= p);
        assert(trim_end(p) == p);
    } else {
        assert((p + q).drop_last() =~= p + q.drop_last());
        assert((p + q).last() == q.last());
        lemma_trim_end_after(p, q.drop_last());
        if !is_white_space(q.last()) {
            assert(trim_end(q) == q);
        }
    }
}

/// Folding a joined name folds each part.
proof fn lemma_fold_all_append(p: Seq<char>, q: Seq<char>)
    ensures
        fold_all(p + q) == fold_all(p) + fold_all(q),
    decreases q.len(),
{
    if q.len() == 0 {
        assert(p + q =~= p);
        assert(fold_all(p) + fold_all(q) =~= fold_all(p));
    } else {
        assert((p + q).drop_last() =~= p + q.drop_last());
        assert((p + q).last() == q.last());
        lemma_fold_all_append(p, q.drop_last());
        assert(fold_all(p + q) =~= fold_all(p) + fold_all(q));
    }
}

/// A locale name that starts with two small letters and `-` keeps that start
/// when normalized, and those letters are its primary subtag.
proof fn lemma_two_letter_subtag(p: Seq<char>, region: Seq<char>)
    requires
        p.len() == 3,
        'a' <= p[0] <= 'z',
        'a' <= p[1] <= 'z',
        p[2] == '-',
    ensures
        normalized_locale(p + region).len() >= 3,
        normalized_locale(p + region).take(3) == p,
        primary_subtag(normalized_locale(p + region)) == p.take(2),
{
    let s = p + region;
    assert(s[0] == p[0]);
    assert(trim_start(s) == s);
    lemma_trim_end_after(p, region);
    let t = trim_end(region);
    lemma_fold_all_append(p, t);
    reveal_with_fuel(fold_all, 4);
    assert(p.drop_last().drop_last().drop_last() =~= Seq::<char>::empty());
    assert(fold_all(p) =~= p);
    let n = p + fold_all(t);
    assert(normalized_locale(s) == n);
    assert(n.take(3) =~= p);
    let d1 = n.drop_first();
    let d2 = d1.drop_first();
    assert(d1[0] == p[1]);
    assert(d2[0] == '-');
    assert(primary_subtag(d2) == Seq::<char>::empty());
    assert(primary_subtag(d1) =~= seq![p[1]]);
    assert(primary_subtag(n) =~= p.take(2));
}

/// A Windows locale of a supported language, in any region and any letter
/// case after its first two letters, selects that language where nothing was
/// saved: the primary subtag, the first two letters of the language's own tag,
/// decides whatever follows it. English is the fallback anyway, and Chinese is
/// told apart by its script or region.
pub proof fn lemma_locale_of_any_region_selects_its_language(language: UiLanguage, region: Seq<char>)
    requires
        language != UiLanguage::English,
        language != UiLanguage::ChineseSimplified,
        language != UiLanguage::ChineseTraditional,
    ensures
        resolved_language(None, language.tag_text().take(2) + "-"@ + region) == language,
{
    reveal_strlit("-");
    reveal_strlit("auto");
    reveal_strlit("en");
    reveal_strlit("en-us");
    reveal_strlit("en-gb");
    reveal_strlit("fr");
    reveal_strlit("fr-fr");
    reveal_strlit("de");
    reveal_strlit("de-de");
    reveal_strlit("es");
    reveal_strlit("es-es");
    reveal_strlit("pt");
    reveal_strlit("pt-br");
    reveal_strlit("it");
    reveal_strlit("it-it");
    reveal_strlit("pl");
    reveal_strlit("pl-pl");
    reveal_strlit("ru");
    reveal_strlit("ru-ru");
    reveal_strlit("zh-cn");
    reveal_strlit("zh-hans");
    reveal_strlit("zh-hans-cn");
    reveal_strlit("zh-tw");
    reveal_strlit("zh-hant");
    reveal_strlit("zh-hant-tw");
    reveal_strlit("ja");
    reveal_strlit("ja-jp");
    reveal_strlit("ko");
    reveal_strlit("ko-kr");
    reveal_strlit("fr-FR");
    reveal_strlit("de-DE");
    reveal_strlit("es-ES");
    reveal_strlit("pt-BR");
    reveal_strlit("it-IT");
    reveal_strlit("pl-PL");
    reveal_strlit("ru-RU");
    reveal_strlit("ja-JP");
    reveal_strlit("ko-KR");
    let tag = language.tag_text();
    let p = tag.take(2) + "-"@;
    assert(p.len() == 3 && p[2] == '-' && p[0] == tag[0] && p[1] == tag[1]);
    assert(p + region =~= tag.take(2) + "-"@ + region);
    lemma_two_letter_subtag(p, region);
    let n = normalized_locale(p + region);
    assert(n[0] == p[0] && n[1] == p[1] && n[2] == '-') by {
        assert(n.take(3)[0] == n[0] && n.take(3)[1] == n[1] && n.take(3)[2] == n[2]);
    }
    assert(n != AUTOMATIC_LANGUAGE@);
    assert(n.len() != 0);
    assert(p.take(2) =~= tag.take(2));
    assert(exact_language(n) is None || exact_language(n) == Some(language));
    assert(base_language(tag.take(2)) == Some(language)) by {
        match language {
            UiLanguage::French => assert(tag.take(2) =~= "fr"@),
            UiLanguage::German => assert(tag.take(2) =~= "de"@),
            UiLanguage::Spanish => assert(tag.take(2) =~= "es"@),
            UiLanguage::PortugueseBrazil => assert(tag.take(2) =~= "pt"@),
            UiLanguage::Italian => assert(tag.take(2) =~= "it"@),
            UiLanguage::Polish => assert(tag.take(2) =~= "pl"@),
            UiLanguage::Russian => assert(tag.take(2) =~= "ru"@),
            UiLanguage::Japanese => assert(tag.take(2) =~= "ja"@),
            UiLanguage::Korean => assert(tag.take(2) =~= "ko"@),
            _ => {},
        }
    }
    assert(supported_language(tag.take(2) + "-"@ + region) == Some(language));
}

/// A saved language tag selects its own language, whatever the Windows locale.
pub proof fn lemma_saved_tag_selects_its_language(language: UiLanguage, locale: Seq<char>)
    ensures
        resolved_language(Some(language.tag_text()), locale) == language,
{
    match language {
        UiLanguage::English => lemma_english_tag_is_supported(),
        UiLanguage::French => lemma_french_tag_is_supported(),
        UiLanguage::German => lemma_german_tag_is_supported(),
        UiLanguage::Spanish => lemma_spanish_tag_is_supported(),
        UiLanguage::PortugueseBrazil => lemma_portuguese_brazil_tag_is_supported(),
        UiLanguage::Italian => lemma_italian_tag_is_supported(),
        UiLanguage::Polish => lemma_polish_tag_is_supported(),
        UiLanguage::Russian => lemma_russian_tag_is_supported(),
        UiLanguage::ChineseSimplified => lemma_chinese_simplified_tag_is_supported(),
        UiLanguage::ChineseTraditional => lemma_chinese_traditional_tag_is_supported(),
        UiLanguage::Japanese => lemma_japanese_tag_is_supported(),
        UiLanguage::Korean => lemma_korean_tag_is_supported(),
    }
}

/// Each own name belongs to at most one language.
pub proof fn lemma_self_names_are_distinct(a: UiLanguage, b: UiLanguage)
    requires
        a.self_name_text() == b.self_name_text(),
    ensures
        a == b,
{
    reveal_strlit("English");
    reveal_strlit("Français");
    reveal_strlit("Deutsch");
    reveal_strlit("Español");
    reveal_strlit("Português (Brasil)");
    reveal_strlit("Italiano");
    reveal_strlit("Polski");
    reveal_strlit("Русский");
    reveal_strlit("简体中文");
    reveal_strlit("繁體中文");
    reveal_strlit("日本語");
    reveal_strlit("한국어");
    assert("English"@[0] != "Deutsch"@[0]);
    assert("English"@[1] != "Español"@[1]);
    assert("English"@[0] != "Русский"@[0]);
    assert("Français"@[0] != "Italiano"@[0]);
    assert("Deutsch"@[0] != "Español"@[0]);
    assert("Deutsch"@[0] != "Русский"@[0]);
    assert("Español"@[0] != "Русский"@[0]);
    assert("简体中文"@[0] != "繁體中文"@[0]);
    assert("日本語"@[0] != "한국어"@[0]);
    assert("English"@.len() != "Français"@.len());
    assert("English"@ != "Français"@);
    assert("English"@ != "Deutsch"@);
    assert("English"@ != "Español"@);
    assert("English"@.len() != "Português (Brasil)"@.len());
    assert("English"@ != "Português (Brasil)"@);
    assert("English"@.len() != "Italiano"@.len());
    assert("English"@ != "Italiano"@);
    assert("English"@.len() != "Polski"@.len());
    assert("English"@ != "Polski"@);
    assert("English"@ != "Русский"@);
    assert("English"@.len() != "简体中文"@.len());
    assert("English"@ != "简体中文"@);
    assert("English"@.len() != "繁體中文"@.len());
    assert("English"@ != "繁體中文"@);
    assert("English"@.len() != "日本語"@.len());
    assert("English"@ != "日本語"@);
    assert("English"@.len() != "한국어"@.len());
    assert("English"@ != "한국어"@);
    assert("Français"@.len() != "Deutsch"@.len());
    assert("Français"@ != "Deutsch"@);
    assert("Français"@.len() != "Español"@.len());
    assert("Français"@ != "Español"@);
    assert("Français"@.len() != "Português (Brasil)"@.len());
    assert("Français"@ != "Português (Brasil)"@);
    assert("Français"@ != "Italiano"@);
    assert("Français"@.len() != "Polski"@.len());
    assert("Français"@ != "Polski"@);
    assert("Français"@.len() != "Русский"@.len());
    assert("Français"@ != "Русский"@);
    assert("Français"@.len() != "简体中文"@.len());
    assert("Français"@ != "简体中文"@);
    assert("Français"@.len() != "繁體中文"@.len());
    assert("Français"@ != "繁體中文"@);
    assert("Français"@.len() != "日本語"@.len());
    assert("Français"@ != "日本語"@);
    assert("Français"@.len() != "한국어"@.len());
    assert("Français"@ != "한국어"@);
    assert("Deutsch"@ != "Español"@);
    assert("Deutsch"@.len() != "Português (Brasil)"@.len());
    assert("Deutsch"@ != "Português (Brasil)"@);
    assert("Deutsch"@.len() != "Italiano"@.len());
    assert("Deutsch"@ != "Italiano"@);
    assert("Deutsch"@.len() != "Polski"@.len());
    assert("Deutsch"@ != "Polski"@);
    assert("Deutsch"@ != "Русский"@);
    assert("Deutsch"@.len() != "简体中文"@.len());
    assert("Deutsch"@ != "简体中文"@);
    assert("Deutsch"@.len() != "繁體中文"@.len());
    assert("Deutsch"@ != "繁體中文"@);
    assert("Deutsch"@.len() != "日本語"@.len());
    assert("Deutsch"@ != "日本語"@);
    assert("Deutsch"@.len() != "한국어"@.len());
    assert("Deutsch"@ != "한국어"@);
    assert("Español"@.len() != "Português (Brasil)"@.len());
    assert("Español"@ != "Português (Brasil)"@);
    assert("Español"@.len() != "Italiano"@.len());
    assert("Español"@ != "Italiano"@);
    assert("Español"@.len() != "Polski"@.len());
    assert("Español"@ != "Polski"@);
    assert("Español"@ != "Русский"@);
    assert("Español"@.len() != "简体中文"@.len());
    assert("Español"@ != "简体中文"@);
    assert("Español"@.len() != "繁體中文"@.len());
    assert("Español"@ != "繁體中文"@);
    assert("Español"@.len() != "日本語"@.len());
    assert("Español"@ != "日本語"@);
    assert("Español"@.len() != "한국어"@.len());
    assert("Español"@ != "한국어"@);
    assert("Português (Brasil)"@.len() != "Italiano"@.len());
    assert("Português (Brasil)"@ != "Italiano"@);
    assert("Português (Brasil)"@.len() != "Polski"@.len());
    assert("Português (Brasil)"@ != "Polski"@);
    assert("Português (Brasil)"@.len() != "Русский"@.len());
    assert("Português (Brasil)"@ != "Русский"@);
    assert("Português (Brasil)"@.len() != "简体中文"@.len());
    assert("Português (Brasil)"@ != "简体中文"@);
    assert("Português (Brasil)"@.len() != "繁體中文"@.len());
    assert("Português (Brasil)"@ != "繁體中文"@);
    assert("Português (Brasil)"@.len() != "日本語"@.len());
    assert("Português (Brasil)"@ != "日本語"@);
    assert("Português (Brasil)"@.len() != "한국어"@.len());
    assert("Português (Brasil)"@ != "한국어"@);
    assert("Italiano"@.len() != "Polski"@.len());
    assert("Italiano"@ != "Polski"@);
    assert("Italiano"@.len() != "Русский"@.len());
    assert("Italiano"@ != "Русский"@);
    assert("Italiano"@.len() != "简体中文"@.len());
    assert("Italiano"@ != "简体中文"@);
    assert("Italiano"@.len() != "繁體中文"@.len());
    assert("Italiano"@ != "繁體中文"@);
    assert("Italiano"@.len() != "日本語"@.len());
    assert("Italiano"@ != "日本語"@);
    assert("Italiano"@.len() != "한국어"@.len());
    assert("Italiano"@ != "한국어"@);
    assert("Polski"@.len() != "Русский"@.len());
    assert("Polski"@ != "Русский"@);
    assert("Polski"@.len() != "简体中文"@.len());
    assert("Polski"@ != "简体中文"@);
    assert("Polski"@.len() != "繁體中文"@.len());
    assert("Polski"@ != "繁體中文"@);
    assert("Polski"@.len() != "日本語"@.len());
    assert("Polski"@ != "日本語"@);
    assert("Polski"@.len() != "한국어"@.len());
    assert("Polski"@ != "한국어"@);
    assert("Русский"@.len() != "简体中文"@.len());
    assert("Русский"@ != "简体中文"@);
    assert("Русский"@.len() != "繁體中文"@.len());
    assert("Русский"@ != "繁體中文"@);
    assert("Русский"@.len() != "日本語"@.len());
    assert("Русский"@ != "日本語"@);
    assert("Русский"@.len() != "한국어"@.len());
    assert("Русский"@ != "한국어"@);
    assert("简体中文"@ != "繁體中文"@);
    assert("简体中文"@.len() != "日本語"@.len());
    assert("简体中文"@ != "日本語"@);
    assert("简体中文"@.len() != "한국어"@.len());
    assert("简体中文"@ != "한국어"@);
    assert("繁體中文"@.len() != "日本語"@.len());
    assert("繁體中文"@ != "日本語"@);
    assert("繁體中文"@.len() != "한국어"@.len());
    assert("繁體中文"@ != "한국어"@);
    assert("日本語"@ != "한국어"@);
    match a {
        UiLanguage::English => match b {
            UiLanguage::English => {},
            UiLanguage::French => {},
            UiLanguage::German => {},
            UiLanguage::Spanish => {},
            UiLanguage::PortugueseBrazil => {},
            UiLanguage::Italian => {},
            UiLanguage::Polish => {},
            UiLanguage::Russian => {},
            UiLanguage::ChineseSimplified => {},
            UiLanguage::ChineseTraditional => {},
            UiLanguage::Japanese => {},
            UiLanguage::Korean => {},
        },
        UiLanguage::French => match b {
            UiLanguage::English => {},
            UiLanguage::French => {},
            UiLanguage::German => {},
            UiLanguage::Spanish => {},
            UiLanguage::PortugueseBrazil => {},
            UiLanguage::Italian => {},
            UiLanguage::Polish => {},
            UiLanguage::Russian => {},
            UiLanguage::ChineseSimplified => {},
            UiLanguage::ChineseTraditional => {},
            UiLanguage::Japanese => {},
            UiLanguage::Korean => {},
        },
        UiLanguage::German => match b {
            UiLanguage::English => {},
            UiLanguage::French => {},
            UiLanguage::German => {},
            UiLanguage::Spanish => {},
            UiLanguage::PortugueseBrazil => {},
            UiLanguage::Italian => {},
            UiLanguage::Polish => {},
            UiLanguage::Russian => {},
            UiLanguage::ChineseSimplified => {},
            UiLanguage::ChineseTraditional => {},
            UiLanguage::Japanese => {},
            UiLanguage::Korean => {},
        },
        UiLanguage::Spanish => match b {
            UiLanguage::English => {},
            UiLanguage::French => {},
            UiLanguage::German => {},
            UiLanguage::Spanish => {},
            UiLanguage::PortugueseBrazil => {},
            UiLanguage::Italian => {},
            UiLanguage::Polish => {},
            UiLanguage::Russian => {},
            UiLanguage::ChineseSimplified => {},
            UiLanguage::ChineseTraditional => {},
            UiLanguage::Japanese => {},
            UiLanguage::Korean => {},
        },
        UiLanguage::PortugueseBrazil => match b {
            UiLanguage::English => {},
            UiLanguage::French => {},
            UiLanguage::German => {},
            UiLanguage::Spanish => {},
            UiLanguage::PortugueseBrazil => {},
            UiLanguage::Italian => {},
            UiLanguage::Polish => {},
            UiLanguage::Russian => {},
            UiLanguage::ChineseSimplified => {},
            UiLanguage::ChineseTraditional => {},
            UiLanguage::Japanese => {},
            UiLanguage::Korean => {},
        },
        UiLanguage::Italian => match b {
            UiLanguage::English => {},
            UiLanguage::French => {},
            UiLanguage::German => {},
            UiLanguage::Spanish => {},
            UiLanguage::PortugueseBrazil => {},
            UiLanguage::Italian => {},
            UiLanguage::Polish => {},
            UiLanguage::Russian => {},
            UiLanguage::ChineseSimplified => {},
            UiLanguage::ChineseTraditional => {},
            UiLanguage::Japanese => {},
            UiLanguage::Korean => {},
        },
        UiLanguage::Polish => match b {
            UiLanguage::English => {},
            UiLanguage::French => {},
            UiLanguage::German => {},
            UiLanguage::Spanish => {},
            UiLanguage::PortugueseBrazil => {},
            UiLanguage::Italian => {},
            UiLanguage::Polish => {},
            UiLanguage::Russian => {},
            UiLanguage::ChineseSimplified => {},
            UiLanguage::ChineseTraditional => {},
            UiLanguage::Japanese => {},
            UiLanguage::Korean => {},
        },
        UiLanguage::Russian => match b {
            UiLanguage::English => {},
            UiLanguage::French => {},
            UiLanguage::German => {},
            UiLanguage::Spanish => {},
            UiLanguage::PortugueseBrazil => {},
            UiLanguage::Italian => {},
            UiLanguage::Polish => {},
            UiLanguage::Russian => {},
            UiLanguage::ChineseSimplified => {},
            UiLanguage::ChineseTraditional => {},
            UiLanguage::Japanese => {},
            UiLanguage::Korean => {},
        },
        UiLanguage::ChineseSimplified => match b {
            UiLanguage::English => {},
            UiLanguage::French => {},
            UiLanguage::German => {},
            UiLanguage::Spanish => {},
            UiLanguage::PortugueseBrazil => {},
            UiLanguage::Italian => {},
            UiLanguage::Polish => {},
            UiLanguage::Russian => {},
            UiLanguage::ChineseSimplified => {},
            UiLanguage::ChineseTraditional => {},
            UiLanguage::Japanese => {},
            UiLanguage::Korean => {},
        },
        UiLanguage::ChineseTraditional => match b {
            UiLanguage::English => {},
            UiLanguage::French => {},
            UiLanguage::German => {},
            UiLanguage::Spanish => {},
            UiLanguage::PortugueseBrazil => {},
            UiLanguage::Italian => {},
            UiLanguage::Polish => {},
            UiLanguage::Russian => {},
            UiLanguage::ChineseSimplified => {},
            UiLanguage::ChineseTraditional => {},
            UiLanguage::Japanese => {},
            UiLanguage::Korean => {},
        },
        UiLanguage::Japanese => match b {
            UiLanguage::English => {},
            UiLanguage::French => {},
            UiLanguage::German => {},
            UiLanguage::Spanish => {},
            UiLanguage::PortugueseBrazil => {},
            UiLanguage::Italian => {},
            UiLanguage::Polish => {},
            UiLanguage::Russian => {},
            UiLanguage::ChineseSimplified => {},
            UiLanguage::ChineseTraditional => {},
            UiLanguage::Japanese => {},
            UiLanguage::Korean => {},
        },
        UiLanguage::Korean => match b {
            UiLanguage::English => {},
            UiLanguage::French => {},
            UiLanguage::German => {},
            UiLanguage::Spanish => {},
            UiLanguage::PortugueseBrazil => {},
            UiLanguage::Italian => {},
            UiLanguage::Polish => {},
            UiLanguage::Russian => {},
            UiLanguage::ChineseSimplified => {},
            UiLanguage::ChineseTraditional => {},
            UiLanguage::Japanese => {},
            UiLanguage::Korean => {},
        },
    }
}

} // verus!

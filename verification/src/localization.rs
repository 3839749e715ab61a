//! Localized user-facing message strings.
//!
//! Messages are keyed tables, one per language, with English as the
//! fallback: a lookup tries the selected language first, then English, and
//! finally hands the key itself back.

use vstd::prelude::*;

verus! {

/// A supported interface language.
#[derive(Debug, Clone, Copy, PartialEq, Eq, Structural)]
pub enum Language {
    English,
    Russian,
}

impl Language {
    /// The two-letter code of this language.
    pub fn code(&self) -> (r: &'static str)
        ensures
            *self == Language::English ==> r@ == "en"@,
            *self == Language::Russian ==> r@ == "ru"@,
    {
        match self {
            Language::English => "en",
            Language::Russian => "ru",
        }
    }
}

/// The first value stored under a key, if any.
pub open spec fn spec_lookup(tbl: Seq<(Seq<char>, Seq<char>)>, key: Seq<char>) -> Option<
    Seq<char>,
>
    decreases tbl.len(),
{
    if tbl.len() == 0 {
        None
    } else if tbl[0].0 == key {
        Some(tbl[0].1)
    } else {
        spec_lookup(tbl.skip(1), key)
    }
}

/// Looks a key up in a message table.
fn lookup(tbl: &Vec<(String, String)>, key: &str) -> (r: Option<String>)
    ensures
        match r {
            Some(v) => spec_lookup(tbl.deep_view(), key@) == Some(v@),
            None => spec_lookup(tbl.deep_view(), key@) is None,
        },
{
    let n = tbl.len();
    let mut i: usize = 0;
    proof {
        assert(tbl.deep_view().skip(0) =~= tbl.deep_view());
    }
    while i < n
        invariant
            0 <= i <= n,
            n == tbl@.len(),
            spec_lookup(tbl.deep_view(), key@) == spec_lookup(
                tbl.deep_view().skip(i as int),
                key@,
            ),
        decreases n - i,
    {
        proof {
            assert(tbl.deep_view().skip(i as int)[0] == tbl.deep_view()[i as int]);
            assert(tbl.deep_view().skip(i as int).skip(1) =~= tbl.deep_view().skip(i + 1));
        }
        if crate::text::str_eq(tbl[i].0.as_str(), key) {
            return Some(tbl[i].1.clone());
        }
        i = i + 1;
    }
    proof {
        assert(tbl.deep_view().skip(n as int) =~= Seq::<(Seq<char>, Seq<char>)>::empty());
    }
    None
}

/// Holds the message tables and the selected language.
pub struct Localizer {
    /// The selected language.
    pub current_language: Language,
    /// The English table.
    pub english: Vec<(String, String)>,
    /// The Russian table.
    pub russian: Vec<(String, String)>,
}

impl Localizer {
    /// The table of the selected language.
    pub open spec fn spec_current_table(&self) -> Seq<(Seq<char>, Seq<char>)> {
        match self.current_language {
            Language::English => self.english.deep_view(),
            Language::Russian => self.russian.deep_view(),
        }
    }

    /// Builds a localizer with the built-in tables and a starting
    /// language.
    pub fn new(language: Language) -> (r: Self)
        ensures
            r.current_language == language,
            r.english@.len() > 0,
            r.russian@.len() > 0,
    {
        Localizer {
            current_language: language,
            english: english_translations(),
            russian: russian_translations(),
        }
    }

    /// Switches the selected language.
    pub fn set_language(&mut self, language: Language)
        ensures
            final(self).current_language == language,
            final(self).english == old(self).english,
            final(self).russian == old(self).russian,
    {
        self.current_language = language;
    }

    /// The message stored under `key`: from the selected language's
    /// table, else from the English table, else the key itself.
    pub fn t(&self, key: &str) -> (r: String)
        ensures
            r@ == (match spec_lookup(self.spec_current_table(), key@) {
                Some(v) => v,
                None => match spec_lookup(self.english.deep_view(), key@) {
                    Some(v) => v,
                    None => key@,
                },
            }),
    {
        let tbl: &Vec<(String, String)> = match self.current_language {
            Language::English => &self.english,
            Language::Russian => &self.russian,
        };
        match lookup(tbl, key) {
            Some(v) => v,
            None => match lookup(&self.english, key) {
                Some(v) => v,
                None => String::from_str(key),
            },
        }
    }
}

/// The built-in English message table.
pub fn english_translations() -> (r: Vec<(String, String)>)
    ensures
        r@.len() == 96,
{
    let mut t: Vec<(String, String)> = Vec::new();
    t.push((String::from_str("app_name"), String::from_str("CompressO CLI")));
    t.push((String::from_str("app_version"), String::from_str("v1.1.0")));
    t.push((String::from_str("header_separator"), String::from_str("━━━━━━━━━━━━━━━━━━━━━━━━━━━━━━━━━━━━━━━━━━━━━━━━━━")));
    t.push((String::from_str("compression_complete"), String::from_str("Compression complete!")));
    t.push((String::from_str("batch_compression_complete"), String::from_str("Batch compression complete!")));
    t.push((String::from_str("cancelled_by_user"), String::from_str("Compression cancelled by user.")));
    t.push((String::from_str("cancelled"), String::from_str("Compression cancelled.")));
    t.push((String::from_str("press_enter_to_exit"), String::from_str("Press Enter to exit...")));
    t.push((String::from_str("video_information"), String::from_str("Video Information")));
    t.push((String::from_str("file"), String::from_str("File:")));
    t.push((String::from_str("size"), String::from_str("Size:")));
    t.push((String::from_str("duration"), String::from_str("Duration:")));
    t.push((String::from_str("resolution"), String::from_str("Resolution:")));
    t.push((String::from_str("frame_rate"), String::from_str("Frame rate:")));
    t.push((String::from_str("compression_settings"), String::from_str("Compression Settings")));
    t.push((String::from_str("input"), String::from_str("Input:")));
    t.push((String::from_str("output"), String::from_str("Output:")));
    t.push((String::from_str("preset"), String::from_str("Preset:")));
    t.push((String::from_str("quality"), String::from_str("Quality:")));
    t.push((String::from_str("dimensions"), String::from_str("Dimensions:")));
    t.push((String::from_str("fps"), String::from_str("FPS:")));
    t.push((String::from_str("audio"), String::from_str("Audio:")));
    t.push((String::from_str("muted"), String::from_str("muted")));
    t.push((String::from_str("format"), String::from_str("Format:")));
    t.push((String::from_str("rotate"), String::from_str("Rotate:")));
    t.push((String::from_str("flip"), String::from_str("Flip:")));
    t.push((String::from_str("crop"), String::from_str("Crop:")));
    t.push((String::from_str("thunderbolt_preset"), String::from_str("thunderbolt (fast)")));
    t.push((String::from_str("ironclad_preset"), String::from_str("ironclad (quality)")));
    t.push((String::from_str("original"), String::from_str("Original:")));
    t.push((String::from_str("compressed"), String::from_str("Compressed:")));
    t.push((String::from_str("saved"), String::from_str("Saved:")));
    t.push((String::from_str("time"), String::from_str("Time:")));
    t.push((String::from_str("processing"), String::from_str("Processing")));
    t.push((String::from_str("summary"), String::from_str("Summary")));
    t.push((String::from_str("total_files"), String::from_str("Total files:")));
    t.push((String::from_str("successful"), String::from_str("Successful:")));
    t.push((String::from_str("failed"), String::from_str("Failed:")));
    t.push((String::from_str("total_original"), String::from_str("Total original:")));
    t.push((String::from_str("total_compressed"), String::from_str("Total compressed:")));
    t.push((String::from_str("total_saved"), String::from_str("Total saved:")));
    t.push((String::from_str("total_time"), String::from_str("Total time:")));
    t.push((String::from_str("individual_results"), String::from_str("Individual Results")));
    t.push((String::from_str("interactive_mode"), String::from_str("Interactive Mode")));
    t.push((String::from_str("drag_drop_video"), String::from_str("Drag & drop video file here or enter path:")));
    t.push((String::from_str("press_enter_without_input"), String::from_str("(Press Enter without input to exit)")));
    t.push((String::from_str("selected"), String::from_str("Selected:")));
    t.push((String::from_str("start_compression"), String::from_str("Start compression?")));
    t.push((String::from_str("no"), String::from_str("No")));
    t.push((String::from_str("yes"), String::from_str("Yes")));
    t.push((String::from_str("compression_cancelled"), String::from_str("Compression cancelled.")));
    t.push((String::from_str("advanced_settings"), String::from_str("Advanced Settings")));
    t.push((String::from_str("transform_options"), String::from_str("Transform Options")));
    t.push((String::from_str("leave_empty_keep_original"), String::from_str("(Leave empty to keep original)")));
    t.push((String::from_str("remove_audio"), String::from_str("Remove audio?")));
    t.push((String::from_str("rotate_video"), String::from_str("Rotate video")));
    t.push((String::from_str("flip_horizontally"), String::from_str("Flip horizontally (mirror)?")));
    t.push((String::from_str("flip_vertically"), String::from_str("Flip vertically?")));
    t.push((String::from_str("crop_video"), String::from_str("Crop video (format: WIDTHxHEIGHT:X:Y)")));
    t.push((String::from_str("crop_example"), String::from_str("Example: 1920x1080:0:0 (crop to 1920x1080 from top-left corner)")));
    t.push((String::from_str("none_keep_original"), String::from_str("None (keep original)")));
    t.push((String::from_str("ninety_clockwise"), String::from_str("90° clockwise")));
    t.push((String::from_str("one_eighty"), String::from_str("180°")));
    t.push((String::from_str("two_seventy_clockwise"), String::from_str("270° clockwise (90° counter-clockwise)")));
    t.push((String::from_str("keep_original_format"), String::from_str("Keep original format [default]")));
    t.push((String::from_str("mp4_format"), String::from_str("MP4")));
    t.push((String::from_str("webm_format"), String::from_str("WebM")));
    t.push((String::from_str("mkv_format"), String::from_str("MKV")));
    t.push((String::from_str("avi_format"), String::from_str("AVI")));
    t.push((String::from_str("mov_format"), String::from_str("MOV")));
    t.push((String::from_str("ironclad_slow_best_quality"), String::from_str("Ironclad (slow, best quality) [default]")));
    t.push((String::from_str("thunderbolt_fast_good_quality"), String::from_str("Thunderbolt (fast, good quality)")));
    t.push((String::from_str("original_size"), String::from_str("Original size:")));
    t.push((String::from_str("est_output"), String::from_str("Est. output:")));
    t.push((String::from_str("est_savings"), String::from_str("Est. savings:")));
    t.push((String::from_str("batch_compression_mode"), String::from_str("Batch Compression Mode")));
    t.push((String::from_str("video_files_found"), String::from_str("video files found:")));
    t.push((String::from_str("files_will_be_skipped"), String::from_str("files will be skipped:")));
    t.push((String::from_str("no_valid_video_files"), String::from_str("No valid video files to process!")));
    t.push((String::from_str("configure_advanced_settings"), String::from_str("Configure advanced settings?")));
    t.push((String::from_str("select_preset"), String::from_str("Select preset")));
    t.push((String::from_str("quality_prompt"), String::from_str("Quality (0-100, higher = better)")));
    t.push((String::from_str("output_format"), String::from_str("Output format")));
    t.push((String::from_str("width_prompt"), String::from_str("Width (e.g., 1920)")));
    t.push((String::from_str("height_prompt"), String::from_str("Height (e.g., 1080)")));
    t.push((String::from_str("fps_prompt"), String::from_str("FPS (e.g., 30)")));
    t.push((String::from_str("file_not_found"), String::from_str("File not found")));
    t.push((String::from_str("not_a_valid_video_file"), String::from_str("This is not a valid video file!")));
    t.push((String::from_str("video_path"), String::from_str("Video path")));
    t.push((String::from_str("invalid_input_file"), String::from_str("Invalid input file")));
    t.push((String::from_str("invalid_output_path"), String::from_str("Invalid output path")));
    t.push((String::from_str("ffmpeg_not_found"), String::from_str("FFmpeg not found. Please install FFmpeg or use bundled version.")));
    t.push((String::from_str("ffmpeg_error"), String::from_str("FFmpeg error")));
    t.push((String::from_str("compression_cancelled_by_user"), String::from_str("Compression cancelled by user")));
    t.push((String::from_str("video_corrupted_or_unsupported"), String::from_str("Video is corrupted or unsupported")));
    t.push((String::from_str("io_error"), String::from_str("IO error")));
    t
}

/// The built-in Russian message table.
pub fn russian_translations() -> (r: Vec<(String, String)>)
    ensures
        r@.len() == 96,
{
    let mut t: Vec<(String, String)> = Vec::new();
    t.push((String::from_str("app_name"), String::from_str("CompressO CLI")));
    t.push((String::from_str("app_version"), String::from_str("v1.1.0")));
    t.push((String::from_str("header_separator"), String::from_str("━━━━━━━━━━━━━━━━━━━━━━━━━━━━━━━━━━━━━━━━━━━━━━━━━━")));
    t.push((String::from_str("compression_complete"), String::from_str("Сжатие завершено!")));
    t.push((String::from_str("batch_compression_complete"), String::from_str("Пакетное сжатие завершено!")));
    t.push((String::from_str("cancelled_by_user"), String::from_str("Сжатие отменено пользователем.")));
    t.push((String::from_str("cancelled"), String::from_str("Сжатие отменено.")));
    t.push((String::from_str("press_enter_to_exit"), String::from_str("Нажмите Enter для выхода...")));
    t.push((String::from_str("video_information"), String::from_str("Информация о видео")));
    t.push((String::from_str("file"), String::from_str("Файл:")));
    t.push((String::from_str("size"), String::from_str("Размер:")));
    t.push((String::from_str("duration"), String::from_str("Длительность:")));
    t.push((String::from_str("resolution"), String::from_str("Разрешение:")));
    t.push((String::from_str("frame_rate"), String::from_str("Частота кадров:")));
    t.push((String::from_str("compression_settings"), String::from_str("Настройки сжатия")));
    t.push((String::from_str("input"), String::from_str("Входной файл:")));
    t.push((String::from_str("output"), String::from_str("Выходной файл:")));
    t.push((String::from_str("preset"), String::from_str("Пресет:")));
    t.push((String::from_str("quality"), String::from_str("Качество:")));
    t.push((String::from_str("dimensions"), String::from_str("Размеры:")));
    t.push((String::from_str("fps"), String::from_str("FPS:")));
    t.push((String::from_str("audio"), String::from_str("Аудио:")));
    t.push((String::from_str("muted"), String::from_str("без звука")));
    t.push((String::from_str("format"), String::from_str("Формат:")));
    t.push((String::from_str("rotate"), String::from_str("Поворот:")));
    t.push((String::from_str("flip"), String::from_str("Отражение:")));
    t.push((String::from_str("crop"), String::from_str("Обрезка:")));
    t.push((String::from_str("thunderbolt_preset"), String::from_str("thunderbolt (быстро)")));
    t.push((String::from_str("ironclad_preset"), String::from_str("ironclad (качество)")));
    t.push((String::from_str("original"), String::from_str("Оригинал:")));
    t.push((String::from_str("compressed"), String::from_str("Сжатый:")));
    t.push((String::from_str("saved"), String::from_str("Сэкономлено:")));
    t.push((String::from_str("time"), String::from_str("Время:")));
    t.push((String::from_str("processing"), String::from_str("Обработка")));
    t.push((String::from_str("summary"), String::from_str("Сводка")));
    t.push((String::from_str("total_files"), String::from_str("Всего файлов:")));
    t.push((String::from_str("successful"), String::from_str("Успешно:")));
    t.push((String::from_str("failed"), String::from_str("Ошибка:")));
    t.push((String::from_str("total_original"), String::from_str("Всего оригинальных:")));
    t.push((String::from_str("total_compressed"), String::from_str("Всего сжатых:")));
    t.push((String::from_str("total_saved"), String::from_str("Всего сэкономлено:")));
    t.push((String::from_str("total_time"), String::from_str("Общее время:")));
    t.push((String::from_str("individual_results"), String::from_str("Индивидуальные результаты")));
    t.push((String::from_str("interactive_mode"), String::from_str("Интерактивный режим")));
    t.push((String::from_str("drag_drop_video"), String::from_str("Перетащите видеофайл сюда или введите путь:")));
    t.push((String::from_str("press_enter_without_input"), String::from_str("(Нажмите Enter без ввода для выхода)")));
    t.push((String::from_str("selected"), String::from_str("Выбрано:")));
    t.push((String::from_str("start_compression"), String::from_str("Начать сжатие?")));
    t.push((String::from_str("no"), String::from_str("Нет")));
    t.push((String::from_str("yes"), String::from_str("Да")));
    t.push((String::from_str("compression_cancelled"), String::from_str("Сжатие отменено.")));
    t.push((String::from_str("advanced_settings"), String::from_str("Дополнительные настройки")));
    t.push((String::from_str("transform_options"), String::from_str("Параметры преобразования")));
    t.push((String::from_str("leave_empty_keep_original"), String::from_str("(Оставьте пустым, чтобы сохранить оригинал)")));
    t.push((String::from_str("remove_audio"), String::from_str("Удалить аудио?")));
    t.push((String::from_str("rotate_video"), String::from_str("Повернуть видео")));
    t.push((String::from_str("flip_horizontally"), String::from_str("Отразить по горизонтали (зеркало)?")));
    t.push((String::from_str("flip_vertically"), String::from_str("Отразить по вертикали?")));
    t.push((String::from_str("crop_video"), String::from_str("Обрезать видео (формат: ШИРИНАxВЫСОТА:X:Y)")));
    t.push((String::from_str("crop_example"), String::from_str("Пример: 1920x1080:0:0 (обрезать до 1920x1080 от левого верхнего угла)")));
    t.push((String::from_str("none_keep_original"), String::from_str("Без изменений (сохранить оригинал)")));
    t.push((String::from_str("ninety_clockwise"), String::from_str("90° по часовой стрелке")));
    t.push((String::from_str("one_eighty"), String::from_str("180°")));
    t.push((String::from_str("two_seventy_clockwise"), String::from_str("270° по часовой стрелке (90° против часовой стрелки)")));
    t.push((String::from_str("keep_original_format"), String::from_str("Сохранить исходный формат [по умолчанию]")));
    t.push((String::from_str("mp4_format"), String::from_str("MP4")));
    t.push((String::from_str("webm_format"), String::from_str("WebM")));
    t.push((String::from_str("mkv_format"), String::from_str("MKV")));
    t.push((String::from_str("avi_format"), String::from_str("AVI")));
    t.push((String::from_str("mov_format"), String::from_str("MOV")));
    t.push((String::from_str("ironclad_slow_best_quality"), String::from_str("Ironclad (медленно, лучшее качество) [по умолчанию]")));
    t.push((String::from_str("thunderbolt_fast_good_quality"), String::from_str("Thunderbolt (быстро, хорошее качество)")));
    t.push((String::from_str("original_size"), String::from_str("Оригинальный размер:")));
    t.push((String::from_str("est_output"), String::from_str("Расч. вывод:")));
    t.push((String::from_str("est_savings"), String::from_str("Расч. экономия:")));
    t.push((String::from_str("batch_compression_mode"), String::from_str("Режим пакетного сжатия")));
    t.push((String::from_str("video_files_found"), String::from_str("видеофайлов найдено:")));
    t.push((String::from_str("files_will_be_skipped"), String::from_str("файлов будет пропущено:")));
    t.push((String::from_str("no_valid_video_files"), String::from_str("Нет допустимых видеофайлов для обработки!")));
    t.push((String::from_str("configure_advanced_settings"), String::from_str("Настроить дополнительные параметры?")));
    t.push((String::from_str("select_preset"), String::from_str("Выбрать пресет")));
    t.push((String::from_str("quality_prompt"), String::from_str("Качество (0-100, выше = лучше)")));
    t.push((String::from_str("output_format"), String::from_str("Формат вывода")));
    t.push((String::from_str("width_prompt"), String::from_str("Ширина (например, 1920)")));
    t.push((String::from_str("height_prompt"), String::from_str("Высота (например, 1080)")));
    t.push((String::from_str("fps_prompt"), String::from_str("FPS (например, 30)")));
    t.push((String::from_str("file_not_found"), String::from_str("Файл не найден")));
    t.push((String::from_str("not_a_valid_video_file"), String::from_str("Это недействительный видеофайл!")));
    t.push((String::from_str("video_path"), String::from_str("Путь к видео")));
    t.push((String::from_str("invalid_input_file"), String::from_str("Недействительный входной файл")));
    t.push((String::from_str("invalid_output_path"), String::from_str("Недействительный путь вывода")));
    t.push((String::from_str("ffmpeg_not_found"), String::from_str("FFmpeg не найден. Пожалуйста, установите FFmpeg или используйте встроенную версию.")));
    t.push((String::from_str("ffmpeg_error"), String::from_str("Ошибка FFmpeg")));
    t.push((String::from_str("compression_cancelled_by_user"), String::from_str("Сжатие отменено пользователем")));
    t.push((String::from_str("video_corrupted_or_unsupported"), String::from_str("Видео повреждено или не поддерживается")));
    t.push((String::from_str("io_error"), String::from_str("Ошибка ввода-вывода")));
    t
}

} // verus!

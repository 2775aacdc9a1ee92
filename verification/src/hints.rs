//! The hints and tooltips of the interface, in both languages.

use vstd::prelude::*;
use crate::i18n::{spec_tr, tr, PlotTool, SprayBrush, UiLanguage};
use crate::optimizer::OptimizerUiMode;

verus! {

/// How to use a plot tool.
pub fn tool_usage_hint(language: UiLanguage, tool: PlotTool) -> (text: &'static str)
    ensures
        text@ == (match tool {
            PlotTool::Navigation => spec_tr(language, "Navigation mode\n- Drag to pan the plot\n- Use wheel/trackpad to zoom\n- Double-click resets view bounds"@, "Режим навигации\n- Перетаскивание двигает график\n- Колесо/трекпад меняют масштаб\n- Двойной клик сбрасывает вид в границы данных"@),
            PlotTool::SinglePoint => spec_tr(language, "Single point tool\n- Press left mouse button on plot to place one sample immediately\n- No extra points are added while button is held\n- Best for precise manual placement"@, "Инструмент одной точки\n- Нажмите левую кнопку на графике, чтобы сразу поставить одну точку\n- Пока кнопка зажата, новые точки не добавляются\n- Подходит для точного ручного ввода"@),
            PlotTool::Dotted => spec_tr(language, "Dotted tool\n- Left click on plot to add one sample\n- Hold left mouse button and move cursor to place points along the path"@, "Инструмент пунктира\n- Левый клик по графику добавляет одну точку\n- Зажмите левую кнопку и ведите курсор, чтобы ставить точки по траектории"@),
            PlotTool::Spray => spec_tr(language, "Spray tool\n- Hold left mouse button to add a stream of points\n- Rate controls points per second\n- Radius controls spread around cursor"@, "Инструмент распыления\n- Зажмите левую кнопку, чтобы добавлять поток точек\n- Скорость задаёт число точек в секунду\n- Радиус задаёт разброс вокруг курсора"@),
            PlotTool::Eraser => spec_tr(language, "Eraser tool\n- Hold left mouse button to remove points\n- Radius controls erase area around cursor"@, "Ластик\n- Зажмите левую кнопку, чтобы удалять точки\n- Радиус задаёт область стирания вокруг курсора"@),
        }),
{
    match tool {
        PlotTool::Navigation => tr(language, "Navigation mode\n- Drag to pan the plot\n- Use wheel/trackpad to zoom\n- Double-click resets view bounds", "Режим навигации\n- Перетаскивание двигает график\n- Колесо/трекпад меняют масштаб\n- Двойной клик сбрасывает вид в границы данных"),
        PlotTool::SinglePoint => tr(language, "Single point tool\n- Press left mouse button on plot to place one sample immediately\n- No extra points are added while button is held\n- Best for precise manual placement", "Инструмент одной точки\n- Нажмите левую кнопку на графике, чтобы сразу поставить одну точку\n- Пока кнопка зажата, новые точки не добавляются\n- Подходит для точного ручного ввода"),
        PlotTool::Dotted => tr(language, "Dotted tool\n- Left click on plot to add one sample\n- Hold left mouse button and move cursor to place points along the path", "Инструмент пунктира\n- Левый клик по графику добавляет одну точку\n- Зажмите левую кнопку и ведите курсор, чтобы ставить точки по траектории"),
        PlotTool::Spray => tr(language, "Spray tool\n- Hold left mouse button to add a stream of points\n- Rate controls points per second\n- Radius controls spread around cursor", "Инструмент распыления\n- Зажмите левую кнопку, чтобы добавлять поток точек\n- Скорость задаёт число точек в секунду\n- Радиус задаёт разброс вокруг курсора"),
        PlotTool::Eraser => tr(language, "Eraser tool\n- Hold left mouse button to remove points\n- Radius controls erase area around cursor", "Ластик\n- Зажмите левую кнопку, чтобы удалять точки\n- Радиус задаёт область стирания вокруг курсора"),
    }
}

/// The format of the point editor.
pub fn points_input_hint(language: UiLanguage) -> (text: &'static str)
    ensures
        text@ == spec_tr(language, "Input format\n- One point per line: x y\n- Separators: space, tab, or ';'\n- Decimal comma is accepted (e.g. 1,25)\n- Empty lines are ignored"@, "Формат ввода\n- Одна точка на строку: x y\n- Разделители: пробел, табуляция или ';'\n- Десятичная запятая поддерживается (например, 1,25)\n- Пустые строки игнорируются"@),
{
    tr(language, "Input format\n- One point per line: x y\n- Separators: space, tab, or ';'\n- Decimal comma is accepted (e.g. 1,25)\n- Empty lines are ignored", "Формат ввода\n- Одна точка на строку: x y\n- Разделители: пробел, табуляция или ';'\n- Десятичная запятая поддерживается (например, 1,25)\n- Пустые строки игнорируются")
}

/// What a spray brush does.
pub fn spray_brush_mode_hint(language: UiLanguage, brush: SprayBrush) -> (text: &'static str)
    ensures
        text@ == (match brush {
            SprayBrush::Uniform => spec_tr(language, "Uniform brush\n- Equal probability inside circle"@, "Равномерная кисть\n- Одинаковая вероятность внутри круга"@),
            SprayBrush::Gaussian => spec_tr(language, "Gaussian brush\n- Denser near center, softer edges"@, "Гауссова кисть\n- Выше плотность в центре, мягче по краям"@),
        }),
{
    match brush {
        SprayBrush::Uniform => tr(language, "Uniform brush\n- Equal probability inside circle", "Равномерная кисть\n- Одинаковая вероятность внутри круга"),
        SprayBrush::Gaussian => tr(language, "Gaussian brush\n- Denser near center, softer edges", "Гауссова кисть\n- Выше плотность в центре, мягче по краям"),
    }
}

/// What parametric normalization does.
pub fn normalization_hint(language: UiLanguage) -> (text: &'static str)
    ensures
        text@ == spec_tr(language, "Parametric normalization\n- Fit runs on normalized x/y for better numerical conditioning\n- Displayed parameters and metrics remain in original units\n- Useful when x and y scales differ significantly"@, "Нормализация параметрических данных\n- Фитинг выполняется на нормализованных x/y для лучшей численной устойчивости\n- Параметры и метрики в интерфейсе остаются в исходных единицах\n- Полезно при сильно разных масштабах x и y"@),
{
    tr(language, "Parametric normalization\n- Fit runs on normalized x/y for better numerical conditioning\n- Displayed parameters and metrics remain in original units\n- Useful when x and y scales differ significantly", "Нормализация параметрических данных\n- Фитинг выполняется на нормализованных x/y для лучшей численной устойчивости\n- Параметры и метрики в интерфейсе остаются в исходных единицах\n- Полезно при сильно разных масштабах x и y")
}

/// The undo button.
pub fn undo_tooltip(language: UiLanguage) -> (text: &'static str)
    ensures
        text@ == spec_tr(language, "Undo\n- Revert last points edit"@, "Отменить\n- Вернуть последнее изменение точек"@),
{
    tr(language, "Undo\n- Revert last points edit", "Отменить\n- Вернуть последнее изменение точек")
}

/// The redo button.
pub fn redo_tooltip(language: UiLanguage) -> (text: &'static str)
    ensures
        text@ == spec_tr(language, "Redo\n- Reapply reverted points edit"@, "Повторить\n- Повторно применить отменённое изменение"@),
{
    tr(language, "Redo\n- Reapply reverted points edit", "Повторить\n- Повторно применить отменённое изменение")
}

/// The clear button.
pub fn clear_tooltip(language: UiLanguage) -> (text: &'static str)
    ensures
        text@ == spec_tr(language, "Clear points\n- Remove all points from input"@, "Очистить точки\n- Удалить все точки из ввода"@),
{
    tr(language, "Clear points\n- Remove all points from input", "Очистить точки\n- Удалить все точки из ввода")
}

/// The actions menu.
pub fn actions_tooltip(language: UiLanguage) -> (text: &'static str)
    ensures
        text@ == spec_tr(language, "Actions\n- Open extra operations for points"@, "Действия\n- Открыть дополнительные операции с точками"@),
{
    tr(language, "Actions\n- Open extra operations for points", "Действия\n- Открыть дополнительные операции с точками")
}

/// The new-layer button.
pub fn layer_new_tooltip(language: UiLanguage) -> (text: &'static str)
    ensures
        text@ == spec_tr(language, "New layer\n- Add an empty point layer and select it"@, "Новый слой\n- Добавить пустой слой точек и выбрать его"@),
{
    tr(language, "New layer\n- Add an empty point layer and select it", "Новый слой\n- Добавить пустой слой точек и выбрать его")
}

/// The duplicate-layer button.
pub fn layer_duplicate_tooltip(language: UiLanguage) -> (text: &'static str)
    ensures
        text@ == spec_tr(language, "Duplicate layer\n- Copy the selected layer with its points, color, and visibility"@, "Дублировать слой\n- Скопировать выбранный слой с точками, цветом и видимостью"@),
{
    tr(language, "Duplicate layer\n- Copy the selected layer with its points, color, and visibility", "Дублировать слой\n- Скопировать выбранный слой с точками, цветом и видимостью")
}

/// The layer-from-clipboard button.
pub fn layer_clipboard_tooltip(language: UiLanguage) -> (text: &'static str)
    ensures
        text@ == spec_tr(language, "New layer from clipboard\n- Paste clipboard points into a new selected layer"@, "Новый слой из буфера\n- Вставить точки из буфера в новый выбранный слой"@),
{
    tr(language, "New layer from clipboard\n- Paste clipboard points into a new selected layer", "Новый слой из буфера\n- Вставить точки из буфера в новый выбранный слой")
}

/// The layer visibility toggle.
pub fn layer_visibility_tooltip(language: UiLanguage) -> (text: &'static str)
    ensures
        text@ == spec_tr(language, "Layer visibility\n- Show or hide this layer in the plot and fitting input"@, "Видимость слоя\n- Показать или скрыть слой на графике и во входе фитинга"@),
{
    tr(language, "Layer visibility\n- Show or hide this layer in the plot and fitting input", "Видимость слоя\n- Показать или скрыть слой на графике и во входе фитинга")
}

/// The clear-layer button.
pub fn layer_clear_tooltip(language: UiLanguage) -> (text: &'static str)
    ensures
        text@ == spec_tr(language, "Clear layer\n- Remove all points from the selected layer"@, "Очистить слой\n- Удалить все точки из выбранного слоя"@),
{
    tr(language, "Clear layer\n- Remove all points from the selected layer", "Очистить слой\n- Удалить все точки из выбранного слоя")
}

/// The delete-layer button.
pub fn layer_delete_tooltip(language: UiLanguage) -> (text: &'static str)
    ensures
        text@ == spec_tr(language, "Delete layer\n- Delete the selected layer\n- If it is the last layer, reset it to an empty default layer"@, "Удалить слой\n- Удалить выбранный слой\n- Если это последний слой, сбросить его в пустой слой по умолчанию"@),
{
    tr(language, "Delete layer\n- Delete the selected layer\n- If it is the last layer, reset it to an empty default layer", "Удалить слой\n- Удалить выбранный слой\n- Если это последний слой, сбросить его в пустой слой по умолчанию")
}

/// The paste button.
pub fn clipboard_import_tooltip(language: UiLanguage) -> (text: &'static str)
    ensures
        text@ == spec_tr(language, "Paste from clipboard\n- Creates a new selected layer\n- Supports decimal dot/comma and scientific notation\n- Skips non-data lines without numeric values\n- Fails if any data line has 1 or 3+ numeric values"@, "Вставить из буфера обмена\n- Создаёт новый выбранный слой\n- Поддерживает десятичную точку/запятую и научный формат\n- Пропускает служебные строки без чисел\n- Возвращает ошибку, если в строке данных 1 или 3+ чисел"@),
{
    tr(language, "Paste from clipboard\n- Creates a new selected layer\n- Supports decimal dot/comma and scientific notation\n- Skips non-data lines without numeric values\n- Fails if any data line has 1 or 3+ numeric values", "Вставить из буфера обмена\n- Создаёт новый выбранный слой\n- Поддерживает десятичную точку/запятую и научный формат\n- Пропускает служебные строки без чисел\n- Возвращает ошибку, если в строке данных 1 или 3+ чисел")
}

/// The file import button.
pub fn file_import_tooltip(language: UiLanguage) -> (text: &'static str)
    ensures
        text@ == spec_tr(language, "Import from file\n- Replaces current input points\n- Supports .csv and .xlsx files\n- Uses robust two-numeric-values-per-row parsing"@, "Импорт из файла\n- Полностью заменяет текущие входные точки\n- Поддерживает файлы .csv и .xlsx\n- Использует робастный парсинг с двумя числовыми значениями в строке"@),
{
    tr(language, "Import from file\n- Replaces current input points\n- Supports .csv and .xlsx files\n- Uses robust two-numeric-values-per-row parsing", "Импорт из файла\n- Полностью заменяет текущие входные точки\n- Поддерживает файлы .csv и .xlsx\n- Использует робастный парсинг с двумя числовыми значениями в строке")
}

/// What an optimizer settings mode offers.
pub fn optimizer_mode_hint(language: UiLanguage, mode: OptimizerUiMode) -> (text: &'static str)
    ensures
        text@ == (match mode {
            OptimizerUiMode::Basic => spec_tr(language, "Basic mode\n- Choose a preset to balance speed vs stability\n- Good default for quick model comparison\n- Switch to Advanced for per-parameter tuning"@, "Базовый режим\n- Выберите пресет для баланса скорости и устойчивости\n- Хороший режим по умолчанию для быстрого сравнения моделей\n- Для точной настройки параметров перейдите в Продвинутый"@),
            OptimizerUiMode::Advanced => spec_tr(language, "Advanced mode\n- Tune solver parameters directly with sliders\n- Any manual change switches preset to Custom\n- Use this mode when convergence is slow or unstable"@, "Продвинутый режим\n- Параметры решателя настраиваются напрямую бегунками\n- Любое ручное изменение переводит пресет в Custom\n- Используйте, если сходимость медленная или нестабильная"@),
        }),
{
    match mode {
        OptimizerUiMode::Basic => tr(language, "Basic mode\n- Choose a preset to balance speed vs stability\n- Good default for quick model comparison\n- Switch to Advanced for per-parameter tuning", "Базовый режим\n- Выберите пресет для баланса скорости и устойчивости\n- Хороший режим по умолчанию для быстрого сравнения моделей\n- Для точной настройки параметров перейдите в Продвинутый"),
        OptimizerUiMode::Advanced => tr(language, "Advanced mode\n- Tune solver parameters directly with sliders\n- Any manual change switches preset to Custom\n- Use this mode when convergence is slow or unstable", "Продвинутый режим\n- Параметры решателя настраиваются напрямую бегунками\n- Любое ручное изменение переводит пресет в Custom\n- Используйте, если сходимость медленная или нестабильная"),
    }
}

/// What automatic refits do.
pub fn auto_refit_hint(language: UiLanguage) -> (text: &'static str)
    ensures
        text@ == spec_tr(language, "Auto-refit\n- Re-runs fit when right-panel fit settings change\n- If fit is already running, one rerun is queued after completion\n- Applies to model/initial parameters, optimization metric, and optimizer settings"@, "Авто-рефит\n- Повторно запускает фит при изменении fit-настроек в правой панели\n- Если фит уже выполняется, один перезапуск ставится в очередь после завершения\n- Применяется к модели/начальным параметрам, метрике оптимизации и настройкам оптимизатора"@),
{
    tr(language, "Auto-refit\n- Re-runs fit when right-panel fit settings change\n- If fit is already running, one rerun is queued after completion\n- Applies to model/initial parameters, optimization metric, and optimizer settings", "Авто-рефит\n- Повторно запускает фит при изменении fit-настроек в правой панели\n- Если фит уже выполняется, один перезапуск ставится в очередь после завершения\n- Применяется к модели/начальным параметрам, метрике оптимизации и настройкам оптимизатора")
}

/// The copy-JSON button.
pub fn result_json_copy_tooltip(language: UiLanguage) -> (text: &'static str)
    ensures
        text@ == spec_tr(language, "Copy JSON\n- Copies serialized fit result to clipboard\n- Includes model info, input summary, metrics, convergence and parameters"@, "Скопировать JSON\n- Копирует сериализованный результат фита в буфер обмена\n- Содержит модель, сводку по входу, метрики, сходимость и параметры"@),
{
    tr(language, "Copy JSON\n- Copies serialized fit result to clipboard\n- Includes model info, input summary, metrics, convergence and parameters", "Скопировать JSON\n- Копирует сериализованный результат фита в буфер обмена\n- Содержит модель, сводку по входу, метрики, сходимость и параметры")
}

/// The save-JSON button.
pub fn result_json_save_tooltip(language: UiLanguage) -> (text: &'static str)
    ensures
        text@ == spec_tr(language, "Save JSON\n- Opens file dialog and saves serialized fit result as .json"@, "Сохранить JSON\n- Открывает диалог и сохраняет сериализованный результат фита в .json"@),
{
    tr(language, "Save JSON\n- Opens file dialog and saves serialized fit result as .json", "Сохранить JSON\n- Открывает диалог и сохраняет сериализованный результат фита в .json")
}

/// The replay controls.
pub fn replay_controls_hint(language: UiLanguage) -> (text: &'static str)
    ensures
        text@ == spec_tr(language, "Replay controls\n- Displayed iteration selects the frame shown on plot/diagnostics\n- Auto-play starts replay automatically after fit\n- Play/Pause controls manual playback\n- Replay step sets delay between frames in seconds"@, "Управление промоткой\n- Показываемая итерация выбирает кадр на графике и в диагностике\n- Автопромотка автоматически запускается после фитинга\n- Пуск/Пауза управляют ручным воспроизведением\n- Шаг промотки задаёт задержку между кадрами в секундах"@),
{
    tr(language, "Replay controls\n- Displayed iteration selects the frame shown on plot/diagnostics\n- Auto-play starts replay automatically after fit\n- Play/Pause controls manual playback\n- Replay step sets delay between frames in seconds", "Управление промоткой\n- Показываемая итерация выбирает кадр на графике и в диагностике\n- Автопромотка автоматически запускается после фитинга\n- Пуск/Пауза управляют ручным воспроизведением\n- Шаг промотки задаёт задержку между кадрами в секундах")
}

/// The initial parameters of parametric models.
pub fn parametric_init_hint(language: UiLanguage) -> (text: &'static str)
    ensures
        text@ == spec_tr(language, "Initial parameters (parametric models)\n- These values are the optimizer starting point\n- +Initialize can fill defaults/data-based/randomized values\n- \"From fitted model\" reuses parameters from the latest fit of the same family"@, "Начальные параметры (параметрические модели)\n- Эти значения являются стартовой точкой оптимизатора\n- +Инициализация может подставить значения по умолчанию/по данным/случайно\n- \"Из обученной модели\" берёт параметры из последнего фитинга того же семейства"@),
{
    tr(language, "Initial parameters (parametric models)\n- These values are the optimizer starting point\n- +Initialize can fill defaults/data-based/randomized values\n- \"From fitted model\" reuses parameters from the latest fit of the same family", "Начальные параметры (параметрические модели)\n- Эти значения являются стартовой точкой оптимизатора\n- +Инициализация может подставить значения по умолчанию/по данным/случайно\n- \"Из обученной модели\" берёт параметры из последнего фитинга того же семейства")
}

/// The initial parameters of splines.
pub fn spline_init_hint(language: UiLanguage) -> (text: &'static str)
    ensures
        text@ == spec_tr(language, "Initial parameters (spline models)\n- Spline is non-parametric, but optimizer still tunes knot y-values\n- +Initialize sets starting knot_y values\n- Better initialization usually reduces iteration count"@, "Начальные параметры (сплайны)\n- Сплайн непараметрический, но оптимизатор всё равно настраивает knot y\n- +Инициализация задаёт стартовые значения knot_y\n- Более удачная инициализация обычно снижает число итераций"@),
{
    tr(language, "Initial parameters (spline models)\n- Spline is non-parametric, but optimizer still tunes knot y-values\n- +Initialize sets starting knot_y values\n- Better initialization usually reduces iteration count", "Начальные параметры (сплайны)\n- Сплайн непараметрический, но оптимизатор всё равно настраивает knot y\n- +Инициализация задаёт стартовые значения knot_y\n- Более удачная инициализация обычно снижает число итераций")
}

/// The knot count.
pub fn knot_count_hint(language: UiLanguage) -> (text: &'static str)
    ensures
        text@ == spec_tr(language, "Knot count\n- More knots: more flexible fit, weaker smoothing\n- Fewer knots: stronger smoothing, simpler curve"@, "Число узлов\n- Больше узлов: более гибкая подгонка, слабее сглаживание\n- Меньше узлов: сильнее сглаживание, проще кривая"@),
{
    tr(language, "Knot count\n- More knots: more flexible fit, weaker smoothing\n- Fewer knots: stronger smoothing, simpler curve", "Число узлов\n- Больше узлов: более гибкая подгонка, слабее сглаживание\n- Меньше узлов: сильнее сглаживание, проще кривая")
}

/// The knot reduction strategy.
pub fn knot_reduction_hint(language: UiLanguage) -> (text: &'static str)
    ensures
        text@ == spec_tr(language, "Knot reduction strategy\n- Bin mean: smoother on clean data, more sensitive to outliers\n- Bin median: more robust to spikes/noise"@, "Стратегия редукции узлов\n- Среднее по окнам: обычно более гладко на чистых данных, но чувствительнее к выбросам\n- Медиана по окнам: устойчивее к пикам и шуму"@),
{
    tr(language, "Knot reduction strategy\n- Bin mean: smoother on clean data, more sensitive to outliers\n- Bin median: more robust to spikes/noise", "Стратегия редукции узлов\n- Среднее по окнам: обычно более гладко на чистых данных, но чувствительнее к выбросам\n- Медиана по окнам: устойчивее к пикам и шуму")
}

/// Spline extrapolation.
pub fn extrapolation_hint(language: UiLanguage) -> (text: &'static str)
    ensures
        text@ == spec_tr(language, "Extrapolation outside knot range\n- Clamp to edge: keep boundary y-value\n- Linear: continue using boundary slope"@, "Экстраполяция вне диапазона узлов\n- Фиксация на краю: удерживать граничное значение y\n- Линейная: продолжать по граничному наклону"@),
{
    tr(language, "Extrapolation outside knot range\n- Clamp to edge: keep boundary y-value\n- Linear: continue using boundary slope", "Экстраполяция вне диапазона узлов\n- Фиксация на краю: удерживать граничное значение y\n- Линейная: продолжать по граничному наклону")
}

/// Duplicate `x` handling.
pub fn duplicate_x_hint(language: UiLanguage) -> (text: &'static str)
    ensures
        text@ == spec_tr(language, "Duplicate x handling\n- Error: fail on repeated x\n- Merge by mean/median: aggregate duplicates before fitting\n- Keep first y: preserve earliest sample per x"@, "Обработка дублей x\n- Error: завершить с ошибкой при повторяющихся x\n- Слияние по mean/median: агрегировать дубли до фитинга\n- Keep first y: оставить первый y для каждого x"@),
{
    tr(language, "Duplicate x handling\n- Error: fail on repeated x\n- Merge by mean/median: aggregate duplicates before fitting\n- Keep first y: preserve earliest sample per x", "Обработка дублей x\n- Error: завершить с ошибкой при повторяющихся x\n- Слияние по mean/median: агрегировать дубли до фитинга\n- Keep first y: оставить первый y для каждого x")
}

/// Spline sampling density.
pub fn spline_sampling_hint(language: UiLanguage) -> (text: &'static str)
    ensures
        text@ == spec_tr(language, "Spline sampling density\n- Selected automatically from knot count and data size\n- Increased as needed, but capped to keep UI responsive"@, "Плотность сэмплирования сплайна\n- Выбирается автоматически по числу узлов и объёму данных\n- Увеличивается по необходимости, но ограничивается для отзывчивого UI"@),
{
    tr(language, "Spline sampling density\n- Selected automatically from knot count and data size\n- Increased as needed, but capped to keep UI responsive", "Плотность сэмплирования сплайна\n- Выбирается автоматически по числу узлов и объёму данных\n- Увеличивается по необходимости, но ограничивается для отзывчивого UI")
}

} // verus!

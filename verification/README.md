# pico_weather

Firmware library for a Raspberry Pi Pico W with a Waveshare 2.9" touch
e-paper panel (SSD1680, 296 × 128, ICNT86 touch): it shows the NTP time and
the OpenWeatherMap weather, with a touch menu for the settings, which are kept
in the last 4 KiB sector of the flash.

The library (`src/`) is written in Verus; every function in it is verified
against its contract.

| module     | what it decides |
|------------|-----------------|
| `ntp`      | the NTP request, the reply's timestamp, and Unix time → calendar date and time |
| `settings` | the settings record, the city and interval tables, the flash image and what a read-back means |
| `touch`    | ICNT86 register frames and the touch report |
| `menu`     | how a touch changes the menu, and what each menu screen shows |
| `http`     | the HTTP request, reading the reply, and what it must satisfy before its body is read |
| `scan`     | byte-level scanning of the JSON replies |
| `weather`  | the 24-hour and 5-day forecasts read out of the forecast reply |
| `display`  | the frame buffer (pixel layout, inversion) and what the weather screen shows |
| `scene`    | screens as lists of shapes |
| `icons`    | the weather icons, degree sign, gear and wind arrow as shapes |
| `hangul`   | Korean weekday names and weather words |
| `text`     | decimal formatting |
| `epd`      | the SSD1680 command sequences |
| `control`  | the main loop as a state machine, and the WiFi retry pauses |
| `hstr`     | the `heapless` strings and UTF-8 validation used by the library |

`app/` holds what runs on the hardware: set-up of the RP2040 peripherals, the
WiFi chip and the network stack, the SPI, I2C and flash transfers, DNS, TCP
and UDP, decoding the current-weather reply with `serde-json-core` (and its
floating-point values), drawing the shapes with `embedded-graphics` and the
ProFont, and the loop that performs the state machine's commands.

Not part of this tree, and needed by `app/` to build: the CYW43 firmware
blobs in `firmware/`, the generated 16 × 16 Hangul glyph module
`app/korean_font.rs` (which draws and measures text holding Hangul), and the
WiFi and OpenWeatherMap credentials, which `app/config.rs` takes from the
environment variables `WIFI_SSID`, `WIFI_PASSWORD` and `OPENWEATHER_API_KEY`
at build time.

`app/` runs on embassy's thread executor (`arch-std`), and its logging is
left out.

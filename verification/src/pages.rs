//! Static pages served beside the device endpoints: a landing page with a
//! clock, a sensor read-out page, and a toggle page. Each builder returns
//! exactly its page text, so callers and tests can rely on the bytes that
//! go out on the wire.

use vstd::prelude::*;
use vstd::string::StringExecFns;

verus! {

/// The landing page: a clock rendered client-side.
pub const INDEX_PAGE: &'static str = r#"
        <!DOCTYPE html>
        <html>
        <head>
            <meta charset="UTF-8">
            <meta name="viewport" content="width=device-width, initial-scale=1.0">
            <title>esp32 clock app webserver</title>
            <style>
                body {
                    font-family: Arial, sans-serif;
                    text-align: center;
                    margin: 0;
                    padding: 0;
                    display: flex;
                    flex-direction: row;
                    height: 100vh;
                }

                #left-section {
                    flex: 1;
                    background-color: green;
                    color: white;
                    display: flex;
                    align-items: center;
                    justify-content: center;
                }

                #middle-section {
                    flex: 1;
                    background-color: white;
                    color: green;
                    align-items: center;
                    justify-content: center;
                }

                #right-section {
                    flex: 1;
                    background-color: green;
                    color: white;
                    display: flex;
                    align-items: center;
                    justify-content: center;
                }

                #clock {
                    font-size: 3rem;
                }
                #mw {
                    flex: 1;
                    background-color: white;
                    color: green;
                    align-items: center;
                    justify-content: center;
                }
            </style>
        </head>
        <body>
            <div id="left-section">
                <h1></h1>
            </div>
            <div id="middle-section">
                <h1>Clock App Web Server on ESP32</h1>
                <div id="clock"></div>
                <div id="mw"><h1>Happy Independence To Nigeria</h1></div>
                <div id="mw"><h1>By Zacchaeus Oluwole</h1></div>
            </div>
            <div id="right-section">
                <h1></h1>
            </div>

            <script>
                function updateClock() {
                    const clockElement = document.getElementById('clock');
                    const now = new Date();
                    const hours = now.getHours().toString().padStart(2, '0');
                    const minutes = now.getMinutes().toString().padStart(2, '0');
                    const seconds = now.getSeconds().toString().padStart(2, '0');

                    const timeString = `${hours}:${minutes}:${seconds}`;
                    clockElement.textContent = timeString;
                }

                // Update the clock every second
                setInterval(updateClock, 1000);

                // Initial call to set the clock
                updateClock();
            </script>
        </body>
        </html>
        "#;

/// The sensor read-out page: fetches a fresh reading once a second.
pub const LDR_PAGE: &'static str = r#"
        <!DOCTYPE html>
        <html>
            <head>
                <meta charset="UTF-8">
                <meta name="viewport" content="width=device-width, initial-scale=1.0">
                <title>LDR RUST WEBSERVER FOR ESP32</title>
                <style>
                    body {
                        font-family: Arial, sans-serif;
                        text-align: center;
                    }

                    #ldr {
                        font-size: 3rem;
                        margin: 20px;
                    }
                </style>
            </head>
            <body>
                <h1>LDR's RUST WEB-SERVER ON ESP32</h1>
                <div id="ldr"></div>

                <script>
                    async function getLdrValue() {
                        var geturl = window.location.href.slice(0, -1) + "/ldr";
                        const ldrElement = document.getElementById('ldr');
                        const ldrValue = await fetch(geturl);
                        const ldr = await ldrValue.text();
                        const ldrString = `LDR Value : ${ldr}`;
                        ldrElement.textContent = ldrString;
                    }

                    // Update the clock every second
                    setInterval(getLdrValue, 1000);

                    // Initial call to set the clock
                    getLdrValue();
                </script>
            </body>
        </html>
        "#;

/// The toggle page: one button flipping an output pin between on and off.
pub const LIGHT_PAGE: &'static str = r#"
        <!DOCTYPE html>
        <html>
        <head>
        <meta name="viewport" content="width=device-width, initial-scale=1">
        <link rel="icon" href="data:,">
        <style>
            html {
            font-family: Helvetica;
            display: inline-block;
            margin: 0px auto;
            text-align: center;
            }

            .button {
            background-color: #4CAF50;
            border: none;
            color: white;
            padding: 16px 40px;
            text-decoration: none;
            font-size: 30px;
            margin: 2px;
            cursor: pointer;
            }
        </style>
        </head>
        <body>
        <h1>Embedded Rust ESP32 Web Server</h1>
        <p>GPIO 4 - State <span id="output4State">%output4State%</span></p>
        <button class="button" onclick="toggleState('output4State')">Toggle GPIO 4</button>

        <script>
            function toggleState(elementId) {
            var onurl = window.location.href.slice(0, -1) + "/on";
            var offurl = window.location.href.slice(0, -1) + "/off";
            var currentState = document.getElementById(elementId).innerText;
            var newState = currentState === 'ON' ? 'OFF' : 'ON';
            document.getElementById(elementId).innerText = newState;
            if(newState === "ON"){
                fetch(onurl);
            }else{
                fetch(offurl);
            }
            }
        </script>
        </body>
        </html>
        "#;

/// The landing page, as the text of `INDEX_PAGE`.
pub fn index_html() -> (r: String)
    ensures
        r@ == INDEX_PAGE@,
{
    String::from_str(INDEX_PAGE)
}

/// The sensor read-out page, as the text of `LDR_PAGE`.
pub fn ldr_html() -> (r: String)
    ensures
        r@ == LDR_PAGE@,
{
    String::from_str(LDR_PAGE)
}

/// The toggle page, as the text of `LIGHT_PAGE`.
pub fn light_html() -> (r: String)
    ensures
        r@ == LIGHT_PAGE@,
{
    String::from_str(LIGHT_PAGE)
}

} // verus!
